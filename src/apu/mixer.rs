//! The stereo mixer: NR51 routing and NR50 master volumes.
use vstd::prelude::*;
use crate::bits::lemma_u8_bits;

verus! {

/// Sum of the channel outputs routed to one side.
pub open spec fn routed_sum(masks: Seq<bool>, chs: Seq<u8>, n: int) -> int
    decreases n,
{
    if n <= 0 {
        0
    } else {
        routed_sum(masks, chs, n - 1) + if masks[n - 1] {
            chs[n - 1] as int
        } else {
            0
        }
    }
}

/// One side's output: the routed sum scaled by the volume, over 4, plus 128.
pub open spec fn side_output(sum: int, volume: u8) -> u8 {
    ((sum * volume) / 4 + 128) as u8
}

/// The `(SO2, SO1)` pair that the mixer makes of four channel outputs.
pub open spec fn mixed_of(m: Mixer, chs: Seq<u8>) -> (u8, u8) {
    (side_output(routed_sum(m.so2_masks@, chs, 4), m.so2_volume), side_output(
        routed_sum(m.so1_masks@, chs, 4),
        m.so1_volume,
    ))
}

/// Whether a sample is the mix of some four 4-bit channel outputs.
pub open spec fn is_mix(m: Mixer, s: (u8, u8)) -> bool {
    exists|chs: Seq<u8>|
        chs.len() == 4 && (forall|i: int| 0 <= i < 4 ==> chs[i] < 16) && #[trigger] mixed_of(m, chs) == s
}

pub struct Mixer {
    pub so1_masks: Vec<bool>,
    pub so2_masks: Vec<bool>,
    pub so1_volume: u8,
    pub so2_volume: u8,
}

impl Mixer {
    pub open spec fn wf(&self) -> bool {
        &&& self.so1_masks@.len() == 4
        &&& self.so2_masks@.len() == 4
        &&& self.so1_volume <= 8
        &&& self.so2_volume <= 8
    }

    pub fn new() -> (r: Self)
        ensures
            r.wf(),
            r.so1_volume == 0 && r.so2_volume == 0,
            forall|i: int| 0 <= i < 4 ==> !r.so1_masks@[i] && !r.so2_masks@[i],
    {
        Mixer {
            so1_masks: vec![false; 4],
            so2_masks: vec![false; 4],
            so1_volume: 0,
            so2_volume: 0,
        }
    }

    /// Mixes the four channel outputs; returns `(SO2, SO1)`, each in 128..=248.
    pub fn mix(&self, chs: [u8; 4]) -> (r: (u8, u8))
        requires
            self.wf(),
            forall|i: int| 0 <= i < 4 ==> #[trigger] chs@[i] < 16,
        ensures
            r.1 == side_output(routed_sum(self.so1_masks@, chs@, 4), self.so1_volume),
            r.0 == side_output(routed_sum(self.so2_masks@, chs@, 4), self.so2_volume),
            128 <= r.0 <= 248 && 128 <= r.1 <= 248,
    {
        let mut so1: u16 = 0;
        let mut so2: u16 = 0;
        let mut i: usize = 0;
        while i < 4
            invariant
                i <= 4,
                self.wf(),
                forall|k: int| 0 <= k < 4 ==> #[trigger] chs@[k] < 16,
                so1 == routed_sum(self.so1_masks@, chs@, i as int),
                so2 == routed_sum(self.so2_masks@, chs@, i as int),
                so1 <= 15 * i && so2 <= 15 * i,
            decreases 4 - i,
        {
            if self.so1_masks[i] {
                so1 = so1 + chs[i] as u16;
            }
            if self.so2_masks[i] {
                so2 = so2 + chs[i] as u16;
            }
            i = i + 1;
        }
        proof {
            assert(so1 * self.so1_volume <= 480 && so2 * self.so2_volume <= 480) by (nonlinear_arith)
                requires
                    so1 <= 60,
                    so2 <= 60,
                    self.so1_volume <= 8,
                    self.so2_volume <= 8,
            ;
        }
        let out1 = ((so1 * self.so1_volume as u16) / 4) as u8 + 128;
        let out2 = ((so2 * self.so2_volume as u16) / 4) as u8 + 128;
        (out2, out1)
    }

    /// NR50: the two 3-bit volumes, each plus one.
    pub fn set_volume(&mut self, data: u8)
        requires
            old(self).wf(),
        ensures
            final(self).wf(),
            final(self).so1_volume == data % 8 + 1,
            final(self).so2_volume == (data / 16) % 8 + 1,
            final(self).so1_masks == old(self).so1_masks,
            final(self).so2_masks == old(self).so2_masks,
    {
        proof {
            lemma_u8_bits();
        }
        self.so1_volume = (data & 0x07) + 1;
        self.so2_volume = ((data >> 4) & 0x07) + 1;
    }

    /// NR51: bit `i` routes channel `i` to SO1, bit `4 + i` to SO2.
    pub fn set_output(&mut self, data: u8)
        requires
            old(self).wf(),
        ensures
            final(self).wf(),
            forall|i: int|
                0 <= i < 4 ==> (#[trigger] final(self).so1_masks@[i] == ((data as int / shift(i)) % 2 == 1))
                    && final(self).so2_masks@[i] == ((data as int / shift(4 + i)) % 2 == 1),
            final(self).so1_volume == old(self).so1_volume,
            final(self).so2_volume == old(self).so2_volume,
    {
        let mut d: u8 = data;
        let mut i: usize = 0;
        while i < 4
            invariant
                i <= 4,
                self.so1_masks@.len() == 4,
                self.so2_masks@.len() == 4,
                self.so1_volume == old(self).so1_volume,
                self.so2_volume == old(self).so2_volume,
                self.so2_masks == old(self).so2_masks,
                d == data as int / shift(i as int),
                forall|k: int| 0 <= k < i ==> #[trigger] self.so1_masks@[k] == ((data as int / shift(k)) % 2 == 1),
            decreases 4 - i,
        {
            proof {
                lemma_shift_step(data, i as int);
            }
            self.so1_masks.set(i, d % 2 == 1);
            d = d / 2;
            i = i + 1;
        }
        let mut j: usize = 0;
        while j < 4
            invariant
                j <= 4,
                self.so1_masks@.len() == 4,
                self.so2_masks@.len() == 4,
                self.so1_volume == old(self).so1_volume,
                self.so2_volume == old(self).so2_volume,
                d == data as int / shift(4 + j as int),
                forall|k: int| 0 <= k < 4 ==> #[trigger] self.so1_masks@[k] == ((data as int / shift(k)) % 2 == 1),
                forall|k: int| 0 <= k < j ==> #[trigger] self.so2_masks@[k] == ((data as int / shift(4 + k)) % 2 == 1),
            decreases 4 - j,
        {
            proof {
                lemma_shift_step(data, 4 + j as int);
            }
            self.so2_masks.set(j, d % 2 == 1);
            d = d / 2;
            j = j + 1;
        }
    }
}

/// `2^n` for `n <= 8`.
pub open spec fn shift(n: int) -> int {
    if n <= 0 {
        1
    } else if n == 1 {
        2
    } else if n == 2 {
        4
    } else if n == 3 {
        8
    } else if n == 4 {
        16
    } else if n == 5 {
        32
    } else if n == 6 {
        64
    } else if n == 7 {
        128
    } else {
        256
    }
}

proof fn lemma_shift_step(data: u8, n: int)
    requires
        0 <= n < 8,
    ensures
        (data as int / shift(n)) / 2 == data as int / shift(n + 1),
{
    vstd::arithmetic::div_mod::lemma_div_denominator(data as int, shift(n), 2);
}

} // verus!
