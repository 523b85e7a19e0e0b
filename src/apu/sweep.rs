//! The frequency sweep of the first square channel.
use vstd::prelude::*;
use vstd::arithmetic::power2::pow2;
use super::duty::{Duty, timer_period};

verus! {

/// The next frequency: the shadow frequency plus or minus itself shifted right.
pub open spec fn sweep_freq(shadow: u32, shift: u8, negate: bool) -> int {
    let delta = shadow as int / pow2(shift as nat) as int;
    if negate {
        shadow - delta
    } else {
        shadow + delta
    }
}

pub struct Sweep {
    pub period: u8,
    pub counter: u8,
    pub negate: bool,
    pub shift: u8,
    pub shadow_freq: u32,
}

impl Sweep {
    pub open spec fn wf(&self) -> bool {
        self.period < 8 && self.counter <= 8 && self.shift < 8 && self.shadow_freq < 2048
    }

    pub fn new() -> (r: Self)
        ensures
            r.wf(),
            r.period == 0 && r.counter == 0 && !r.negate && r.shift == 0 && r.shadow_freq == 0,
    {
        Sweep { period: 0, counter: 0, negate: false, shift: 0, shadow_freq: 0 }
    }

    /// One sweep clock. When the counter runs out it reloads; the next
    /// frequency is computed and, when it fits in 11 bits and the shift is
    /// not zero, written back to the shadow and to the duty generator, then
    /// computed once more. Returns false (the channel must go off) when a
    /// computed frequency exceeds 2047.
    pub fn next(&mut self, duty: &mut Duty) -> (r: bool)
        requires
            old(self).wf(),
            old(duty).wf(),
        ensures
            final(self).wf(),
            final(duty).wf(),
            final(self).period == old(self).period && final(self).shift == old(self).shift,
            final(self).negate == old(self).negate,
            old(self).period > 0 && old(self).counter > 1 ==> final(self).counter == old(self).counter - 1,
            !(old(self).period > 0 && old(self).counter > 0) ==> final(self).counter == old(self).counter,
            !(old(self).period > 0 && old(self).counter == 1) ==> r && *final(duty) == *old(duty)
                && final(self).shadow_freq == old(self).shadow_freq,
            old(self).period > 0 && old(self).counter == 1 ==> {
                let new = sweep_freq(old(self).shadow_freq, old(self).shift, old(self).negate);
                &&& final(self).counter == old(self).period
                &&& new > 2047 ==> !r && *final(duty) == *old(duty)
                &&& new <= 2047 && old(self).shift == 0 ==> r && *final(duty) == *old(duty)
                &&& new <= 2047 && old(self).shift > 0 ==> {
                    &&& final(self).shadow_freq == new
                    &&& final(duty).freq == new
                    &&& final(duty).timer.period == (2048 - new) * 4
                    &&& r == (sweep_freq(new as u32, old(self).shift, old(self).negate) <= 2047)
                }
            },
    {
        if self.period > 0 && self.counter > 0 {
            self.counter = self.counter - 1;
            if self.counter == 0 {
                self.reset_counter();
                let new = self.calc_freq();
                if new <= 2047 {
                    if self.shift > 0 {
                        self.shadow_freq = new;
                        duty.set_freq(new, timer_period(new));
                        let again = self.calc_freq();
                        if again > 2047 {
                            return false;
                        }
                    }
                } else {
                    return false;
                }
            }
        }
        true
    }

    /// The next frequency from the shadow frequency.
    pub fn calc_freq(&self) -> (r: u32)
        requires
            self.wf(),
        ensures
            r == sweep_freq(self.shadow_freq, self.shift, self.negate),
            r < 4096,
    {
        let new = self.shadow_freq >> self.shift;
        proof {
            vstd::bits::lemma_u32_shr_is_div(self.shadow_freq, self.shift as u32);
            vstd::arithmetic::power2::lemma_pow2_pos(self.shift as nat);
            vstd::arithmetic::div_mod::lemma_div_is_ordered_by_denominator(
                self.shadow_freq as int,
                1,
                pow2(self.shift as nat) as int,
            );
        }
        if self.negate {
            self.shadow_freq - new
        } else {
            self.shadow_freq + new
        }
    }

    /// Trigger: copy the channel frequency to the shadow and reload the
    /// counter; false when both period and shift are set and the next
    /// frequency already exceeds 2047.
    pub fn trigger(&mut self, freq: u32) -> (r: bool)
        requires
            old(self).wf(),
            freq < 2048,
        ensures
            final(self).wf(),
            final(self).shadow_freq == freq,
            final(self).period == old(self).period && final(self).shift == old(self).shift,
            final(self).negate == old(self).negate,
            final(self).counter == if old(self).period == 0 {
                8
            } else {
                old(self).period
            },
            r == !(old(self).period > 0 && old(self).shift > 0 && sweep_freq(
                freq,
                old(self).shift,
                old(self).negate,
            ) > 2047),
    {
        self.shadow_freq = freq;
        self.reset_counter();
        if self.period > 0 && self.shift > 0 {
            let new = self.calc_freq();
            if new > 2047 {
                return false;
            }
        }
        true
    }

    fn reset_counter(&mut self)
        requires
            old(self).wf(),
        ensures
            final(self).wf(),
            *final(self) == (Sweep {
                counter: if old(self).period == 0 {
                    8
                } else {
                    old(self).period
                },
                ..*old(self)
            }),
    {
        self.counter = if self.period == 0 {
            8
        } else {
            self.period
        };
    }
}

} // verus!
