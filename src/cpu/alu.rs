//! The arithmetic and logic of the instruction set, as functions from
//! operands and flags to result and flags.
use vstd::prelude::*;
use super::reg::Flag;
use crate::apu::duty::shift_div;

verus! {

pub open spec fn flags(zero: bool, substract: bool, half_carry: bool, carry: bool) -> Flag {
    Flag { zero, substract, half_carry, carry }
}

/// ADD A, r.
pub open spec fn add_spec(a: u8, b: u8) -> (u8, Flag) {
    let r = ((a + b) % 256) as u8;
    (r, flags(r == 0, false, a % 16 + b % 16 > 15, a + b > 255))
}

/// ADC A, r.
pub open spec fn adc_spec(a: u8, b: u8, c: bool) -> (u8, Flag) {
    let ci: int = if c {
        1
    } else {
        0
    };
    let r = ((a + b + ci) % 256) as u8;
    (r, flags(r == 0, false, a % 16 + b % 16 + ci > 15, a + b + ci > 255))
}

/// SUB A, r.
pub open spec fn sub_spec(a: u8, b: u8) -> (u8, Flag) {
    let r = ((a - b + 256) % 256) as u8;
    (r, flags(r == 0, true, a % 16 < b % 16, a < b))
}

/// SBC A, r.
pub open spec fn sbc_spec(a: u8, b: u8, c: bool) -> (u8, Flag) {
    let ci: int = if c {
        1
    } else {
        0
    };
    let r = ((a - b - ci + 512) % 256) as u8;
    (r, flags(r == 0, true, a % 16 < b % 16 + ci, a < b + ci))
}

/// CP r: the flags of SUB without the result.
pub open spec fn cp_spec(a: u8, b: u8) -> Flag {
    sub_spec(a, b).1
}

/// INC r: carry untouched.
pub open spec fn inc_spec(v: u8, c: bool) -> (u8, Flag) {
    let r = ((v + 1) % 256) as u8;
    (r, flags(r == 0, false, v % 16 == 15, c))
}

/// DEC r: carry untouched.
pub open spec fn dec_spec(v: u8, c: bool) -> (u8, Flag) {
    let r = ((v + 255) % 256) as u8;
    (r, flags(r == 0, true, v % 16 == 0, c))
}

/// RLC: rotate left, bit 7 to carry and bit 0.
pub open spec fn rlc_spec(v: u8) -> (u8, Flag) {
    let r = ((v % 128) * 2 + v / 128) as u8;
    (r, flags(r == 0, false, false, v >= 128))
}

/// RRC: rotate right, bit 0 to carry and bit 7.
pub open spec fn rrc_spec(v: u8) -> (u8, Flag) {
    let r = (v / 2 + (v % 2) * 128) as u8;
    (r, flags(r == 0, false, false, v % 2 == 1))
}

/// RL: rotate left through carry.
pub open spec fn rl_spec(v: u8, c: bool) -> (u8, Flag) {
    let r = ((v % 128) * 2 + if c {
        1int
    } else {
        0
    }) as u8;
    (r, flags(r == 0, false, false, v >= 128))
}

/// RR: rotate right through carry.
pub open spec fn rr_spec(v: u8, c: bool) -> (u8, Flag) {
    let r = (v / 2 + if c {
        128int
    } else {
        0
    }) as u8;
    (r, flags(r == 0, false, false, v % 2 == 1))
}

/// SLA: shift left, bit 7 to carry.
pub open spec fn sla_spec(v: u8) -> (u8, Flag) {
    let r = ((v % 128) * 2) as u8;
    (r, flags(r == 0, false, false, v >= 128))
}

/// SRA: shift right keeping bit 7, bit 0 to carry.
pub open spec fn sra_spec(v: u8) -> (u8, Flag) {
    let r = (v / 2 + if v >= 128 {
        128int
    } else {
        0
    }) as u8;
    (r, flags(r == 0, false, false, v % 2 == 1))
}

/// SRL: shift right, bit 0 to carry.
pub open spec fn srl_spec(v: u8) -> (u8, Flag) {
    let r = (v / 2) as u8;
    (r, flags(r == 0, false, false, v % 2 == 1))
}

/// SWAP: exchange the nibbles.
pub open spec fn swap_spec(v: u8) -> (u8, Flag) {
    let r = ((v % 16) * 16 + v / 16) as u8;
    (r, flags(r == 0, false, false, false))
}

/// Whether bit `n` of `v` is set.
pub open spec fn bit_set(v: u8, n: int) -> bool {
    (v as int / shift_div(n)) % 2 == 1
}

/// DAA: BCD correction after an addition or a subtraction.
pub open spec fn daa_spec(a: u8, f: Flag) -> (u8, Flag) {
    let v = a as int;
    let new = if !f.substract {
        let v1 = if f.half_carry || v % 16 > 9 {
            v + 6
        } else {
            v
        };
        if f.carry || v1 > 0x9f {
            v1 + 0x60
        } else {
            v1
        }
    } else {
        let v1 = if f.half_carry {
            if f.carry {
                (v - 6 + 0x10000) % 0x10000
            } else {
                ((v - 6 + 0x10000) % 0x10000) % 256
            }
        } else {
            v
        };
        if f.carry {
            (v1 - 0x60 + 0x10000) % 0x10000
        } else {
            v1
        }
    };
    let r = (new % 256) as u8;
    (r, flags(r == 0, f.substract, false, f.carry || (new / 256) % 2 == 1))
}

/// ADD HL, rr: Z untouched, H from bit 11, C from bit 15.
pub open spec fn add_hl_spec(hl: u16, v: u16, z: bool) -> (u16, Flag) {
    (((hl + v) % 65536) as u16, flags(z, false, hl % 4096 + v % 4096 > 4095, hl + v > 65535))
}

/// The signed value of a byte.
pub open spec fn signed(e: u8) -> int {
    if e < 128 {
        e as int
    } else {
        e - 256
    }
}

/// ADD SP, e (and LD HL, SP+e): Z and N clear, H and C from the unsigned
/// byte additions of the low byte.
pub open spec fn add_sp_spec(sp: u16, e: u8) -> (u16, Flag) {
    (((sp + signed(e) + 0x10000) % 0x10000) as u16, flags(
        false,
        false,
        sp % 16 + e % 16 > 15,
        sp % 256 + e > 255,
    ))
}

/// `l + sign_extend(r)` modulo 2^16.
pub fn add_relative(l: u16, r: u8) -> (res: u16)
    ensures
        res == (l + signed(r) + 0x10000) % 0x10000,
{
    if r < 128 {
        l.wrapping_add(r as u16)
    } else {
        l.wrapping_sub(256 - r as u16)
    }
}

pub fn daa(a: u8, f: Flag) -> (r: (u8, Flag))
    ensures
        r == daa_spec(a, f),
{
    let mut new: u16 = a as u16;
    if !f.substract {
        if f.half_carry || new % 16 > 9 {
            new = new + 0x06;
        }
        if f.carry || new > 0x9f {
            new = new + 0x60;
        }
    } else {
        if f.half_carry {
            new = new.wrapping_sub(0x06);
            if !f.carry {
                new = new % 256;
            }
        }
        if f.carry {
            new = new.wrapping_sub(0x60);
        }
    }
    let r = (new % 256) as u8;
    (r, Flag { zero: r == 0, substract: f.substract, half_carry: false, carry: f.carry || (new / 256) % 2 == 1 })
}

/// After `ADD A, A` on a BCD value, `DAA` leaves a BCD digit in the low
/// nibble, and a value above 0x99 only with the carry set.
pub proof fn lemma_daa_after_add(a: u8)
    requires
        a % 16 <= 9,
        a / 16 <= 9,
    ensures
        ({
            let (s, f) = add_spec(a, a);
            let (d, g) = daa_spec(s, f);
            d % 16 <= 9 && (d <= 0x99 || g.carry)
        }),
{
}

/// After `SUB A, A`, `DAA` leaves A at zero, with no carry.
pub proof fn lemma_daa_after_sub(a: u8)
    ensures
        ({
            let (s, f) = sub_spec(a, a);
            let (d, g) = daa_spec(s, f);
            d == 0 && !g.carry && d % 16 <= 9 && d <= 0x99
        }),
{
}

} // verus!
