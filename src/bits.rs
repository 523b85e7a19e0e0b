//! Facts about the bit masks and shifts used across the emulator.
use vstd::prelude::*;

verus! {

/// Masks and shifts of a byte, in arithmetic terms.
pub proof fn lemma_u8_bits()
    by (bit_vector)
    ensures
        forall|x: u8, y: u8| #[trigger] (x & y) <= x && (x & y) <= y,
        forall|x: u8, y: u8| #[trigger] ((x | y) & y) == y,
        forall|x: u8, y: u8, k: u8| (x & k) != 0 ==> #[trigger] ((x | y) & k) != 0,
        forall|x: u8| #[trigger] (x & 0) == 0,
        forall|x: u8| #[trigger] (x & 0xff) == x && (x & 0) == 0 && (0xff & x) == x && (0 & x) == 0,
        forall|x: u8| #[trigger] (x & 0x01) == x % 2,
        forall|x: u8| #[trigger] (x & 0x03) == x % 4,
        forall|x: u8| #[trigger] (x & 0x07) == x % 8,
        forall|x: u8| #[trigger] (x & 0x0f) == x % 16,
        forall|x: u8| #[trigger] (x & 0x1f) == x % 32,
        forall|x: u8| #[trigger] (x & 0x3f) == x % 64,
        forall|x: u8| #[trigger] (x & 0x7f) == x % 128,
        forall|x: u8| #[trigger] (x >> 1) == x / 2,
        forall|x: u8| #[trigger] (x >> 2) == x / 4,
        forall|x: u8| #[trigger] (x >> 3) == x / 8,
        forall|x: u8| #[trigger] (x >> 4) == x / 16,
        forall|x: u8| #[trigger] (x >> 5) == x / 32,
        forall|x: u8| #[trigger] (x >> 6) == x / 64,
        forall|x: u8| #[trigger] (x >> 7) == x / 128,
        forall|x: u8| #[trigger] (x & 0x80) == 0 <==> x / 128 == 0,
        forall|x: u8| #[trigger] (x & 0x40) == 0 <==> (x / 64) % 2 == 0,
        forall|x: u8| #[trigger] (x & 0x20) == 0 <==> (x / 32) % 2 == 0,
        forall|x: u8| #[trigger] (x & 0x10) == 0 <==> (x / 16) % 2 == 0,
        forall|x: u8| #[trigger] (x & 0x08) == 0 <==> (x / 8) % 2 == 0,
        forall|x: u8| #[trigger] (x & 0x04) == 0 <==> (x / 4) % 2 == 0,
        forall|x: u8| #[trigger] (x & 0x02) == 0 <==> (x / 2) % 2 == 0,
        forall|x: u8| #[trigger] (x & 0xf0) / 16 == x / 16 && (x & 0xf0) % 16 == 0,
        forall|x: u8| #[trigger] (x & 0x70) / 16 == (x / 16) % 8 && (x & 0x70) % 16 == 0,
        forall|x: u8| #[trigger] (x & 0x60) / 32 == (x / 32) % 4 && (x & 0x60) % 32 == 0,
        forall|x: u8| #[trigger] (x & 0xc0) / 64 == x / 64 && (x & 0xc0) % 64 == 0,
        forall|x: u8| #[trigger] (x & 0xfe) / 2 == x / 2 && (x & 0xfe) % 2 == 0,
        forall|x: u8| #[trigger] (x | 0x01) / 2 == x / 2 && (x | 0x01) % 2 == 1,
        forall|x: u8| #[trigger] (x & 0x78) / 8 == (x / 8) % 16 && (x & 0x78) % 8 == 0,
        forall|x: u8| #[trigger] (x & 0xf8) / 8 == x / 8 && (x & 0xf8) % 8 == 0,
{
}

/// Masks and shifts of a word, in arithmetic terms.
pub proof fn lemma_u16_bits()
    by (bit_vector)
    ensures
        forall|x: u16, y: u16| #[trigger] (x & y) <= x && (x & y) <= y,
        forall|x: u16| #[trigger] (x & 0x00ff) == x % 256,
        forall|x: u16| #[trigger] (x & 0x0fff) == x % 4096,
        forall|x: u16| #[trigger] (x & 0x000f) == x % 16,
        forall|x: u16| #[trigger] (x & 0x0100) == 0 <==> (x / 256) % 2 == 0,
        forall|x: u16| #[trigger] (x >> 8) == x / 256,
        forall|x: u16| #[trigger] (x >> 4) == x / 16,
        forall|x: u16| #[trigger] (x & 0xff00) / 256 == x / 256 && (x & 0xff00) % 256 == 0,
        forall|x: u16| #[trigger] (x & 0xfff0) / 16 == x / 16 && (x & 0xfff0) % 16 == 0,
        forall|x: u16| x < 256 ==> #[trigger] (x << 8) / 256 == x && (x << 8) % 256 == 0,
        forall|x: u16| x < 4096 ==> #[trigger] (x << 4) / 16 == x && (x << 4) % 16 == 0,
        forall|x: u16, y: u16| x < 256 && y < 256 ==> #[trigger] (x | (y << 8)) / 256 == y && (x | (y
            << 8)) % 256 == x,
        forall|x: u16, y: u16| x % 256 == 0 && y < 256 ==> #[trigger] (x | y) / 256 == x / 256 && (x
            | y) % 256 == y,
        forall|x: u16, y: u16| x % 16 == 0 && y < 16 ==> #[trigger] (x | y) / 16 == x / 16 && (x | y)
            % 16 == y,
{
}

} // verus!
