//! The noise channel's 15-bit linear-feedback shift register.
use vstd::prelude::*;
use super::timer::Timer;
use crate::bits::lemma_u8_bits;

verus! {

#[derive(Clone, Copy, Debug, PartialEq, Eq, Structural)]
pub enum WidthMode {
    Low,
    High,
}

/// The register after one shift: the XOR of its two low bits enters at
/// bit 14 (and also at bit 6 in 7-bit mode).
pub open spec fn shifted(reg: u16, mode: WidthMode) -> u16 {
    let x = ((reg & 0x02) >> 1) ^ (reg & 0x01);
    let s = reg >> 1;
    if mode == WidthMode::Low {
        (s & 0x3fbf) | (x << 14) | (x << 6)
    } else {
        (s & 0x3fff) | (x << 14)
    }
}

/// Clock divisors selected by the low three bits of NR43.
pub open spec fn divisor(code: int) -> u32 {
    if code == 0 {
        8
    } else if code == 1 {
        16
    } else if code == 2 {
        32
    } else if code == 3 {
        48
    } else if code == 4 {
        64
    } else if code == 5 {
        80
    } else if code == 6 {
        96
    } else {
        112
    }
}

pub struct LFSR {
    pub timer: Timer,
    pub shift_reg: u16,
    pub mode: WidthMode,
}

impl LFSR {
    pub fn new() -> (r: Self)
        ensures
            r.shift_reg == 0x7fff && r.mode == WidthMode::High && r.timer.period == 0,
    {
        LFSR { timer: Timer::new(0), shift_reg: 0x7fff, mode: WidthMode::High }
    }

    /// Shifts when the timer fires; the output is the inverted low bit.
    pub fn next(&mut self) -> (r: u8)
        ensures
            final(self).mode == old(self).mode,
            final(self).timer.period == old(self).timer.period,
            final(self).shift_reg == if old(self).timer.counter == 0 {
                shifted(old(self).shift_reg, old(self).mode)
            } else {
                old(self).shift_reg
            },
            r == (if final(self).shift_reg % 2 == 0 {
                1u8
            } else {
                0u8
            }),
    {
        if self.timer.tick() {
            self.randomize();
        }
        let low = self.shift_reg % 2;
        if low == 0 {
            1
        } else {
            0
        }
    }

    fn randomize(&mut self)
        ensures
            final(self).shift_reg == shifted(old(self).shift_reg, old(self).mode),
            final(self).mode == old(self).mode,
            final(self).timer == old(self).timer,
    {
        let xor = ((self.shift_reg & 0x02) >> 1) ^ (self.shift_reg & 0x01);
        let s = self.shift_reg >> 1;
        self.shift_reg = if self.mode == WidthMode::Low {
            (s & 0x3fbf) | (xor << 14) | (xor << 6)
        } else {
            (s & 0x3fff) | (xor << 14)
        };
    }

    /// NR43: width mode (bit 3) and the period `divisor << shift`.
    pub fn set_state(&mut self, data: u8)
        ensures
            final(self).shift_reg == old(self).shift_reg,
            final(self).timer.counter == old(self).timer.counter,
            final(self).mode == if (data / 8) % 2 == 1 {
                WidthMode::Low
            } else {
                WidthMode::High
            },
            final(self).timer.period == divisor((data % 8) as int) * shift_mul((data / 16) as int),
    {
        proof {
            lemma_u8_bits();
        }
        self.mode = if data & 0x08 != 0 {
            WidthMode::Low
        } else {
            WidthMode::High
        };
        let shift = (data & 0xf0) >> 4;
        let code = data & 0x07;
        let d: u32 = if code == 0 {
            8
        } else if code == 1 {
            16
        } else if code == 2 {
            32
        } else if code == 3 {
            48
        } else if code == 4 {
            64
        } else if code == 5 {
            80
        } else if code == 6 {
            96
        } else {
            112
        };
        let mut p: u32 = d;
        let mut k: u8 = 0;
        while k < shift
            invariant
                k <= shift,
                shift < 16,
                d <= 112,
                p == d * shift_mul(k as int),
                shift_mul(k as int) <= 0x8000,
            decreases shift - k,
        {
            proof {
                let m0 = shift_mul(k as int);
                let m1 = shift_mul(k as int + 1);
                lemma_shift_mul_step(k as int);
                assert(d * m1 == 2 * (d * m0) && d * m1 <= 112 * 0x8000) by (nonlinear_arith)
                    requires
                        m1 == 2 * m0,
                        m1 <= 0x8000,
                        d <= 112,
                ;
            }
            p = p * 2;
            k = k + 1;
        }
        self.timer.set_period(p);
    }

    /// Trigger: reload the timer and fill the register with ones.
    pub fn reset(&mut self)
        ensures
            final(self).shift_reg == 0x7fff,
            final(self).mode == old(self).mode,
            final(self).timer.period == old(self).timer.period,
            final(self).timer.counter == old(self).timer.period,
    {
        self.timer.reset();
        self.shift_reg = 0x7fff;
    }
}

/// `2^n`, the factor of a left shift by `n`.
pub open spec fn shift_mul(n: int) -> int
    decreases n,
{
    if n <= 0 {
        1
    } else {
        2 * shift_mul(n - 1)
    }
}

proof fn lemma_shift_mul_step(k: int)
    requires
        0 <= k < 15,
    ensures
        shift_mul(k + 1) == 2 * shift_mul(k),
        shift_mul(k + 1) <= 0x8000,
{
    lemma_shift_mul_mono(k + 1, 15);
    reveal_with_fuel(shift_mul, 16);
}

pub proof fn lemma_shift_mul_mono(a: int, b: int)
    requires
        0 <= a <= b,
    ensures
        1 <= shift_mul(a) <= shift_mul(b),
    decreases b,
{
    if a < b {
        lemma_shift_mul_mono(a, b - 1);
    } else if a > 0 {
        lemma_shift_mul_mono(a - 1, a - 1);
    }
}

/// Bounds of `2^k` below `2^8`.
pub proof fn lemma_shift_mul_bound(k: int)
    requires
        0 <= k < 8,
    ensures
        shift_mul(k + 1) == 2 * shift_mul(k),
        shift_mul(k + 1) <= 256,
{
    lemma_shift_mul_mono(k + 1, 8);
    reveal_with_fuel(shift_mul, 9);
}

} // verus!
