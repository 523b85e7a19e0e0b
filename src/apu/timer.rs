//! A down-counter that fires once every `period + 1` ticks.
use vstd::prelude::*;

verus! {

pub struct Timer {
    pub period: u32,
    pub counter: u32,
}

impl Timer {
    pub fn new(period: u32) -> (r: Self)
        ensures
            r.period == period && r.counter == 0,
    {
        Timer { period, counter: 0 }
    }

    /// Counts down; on reaching zero reloads the period and fires.
    pub fn tick(&mut self) -> (r: bool)
        ensures
            final(self).period == old(self).period,
            r == (old(self).counter == 0),
            r ==> final(self).counter == old(self).period,
            !r ==> final(self).counter == old(self).counter - 1,
    {
        if self.counter > 0 {
            self.counter = self.counter - 1;
            false
        } else {
            self.counter = self.period;
            true
        }
    }

    pub fn set_period(&mut self, period: u32)
        ensures
            final(self).period == period && final(self).counter == old(self).counter,
    {
        self.period = period;
    }

    pub fn reset(&mut self)
        ensures
            final(self).period == old(self).period && final(self).counter == old(self).period,
    {
        self.counter = self.period;
    }
}

} // verus!
