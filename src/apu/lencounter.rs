//! The length counter that switches a channel off when it runs out.
use vstd::prelude::*;

verus! {

#[derive(Clone, Copy, Debug, PartialEq, Eq, Structural)]
pub enum CounterMode {
    Counter,
    Continuous,
}

pub struct LengthCounter {
    pub counter: u16,
    pub max_len: u16,
    pub mode: CounterMode,
}

impl LengthCounter {
    pub open spec fn is_on_spec(&self) -> bool {
        self.mode == CounterMode::Counter
    }

    pub fn new(max_len: u16) -> (r: Self)
        ensures
            r.counter == 0 && r.max_len == max_len && r.mode == CounterMode::Continuous,
    {
        LengthCounter { counter: 0, max_len, mode: CounterMode::Continuous }
    }

    /// One length clock; false when the counter has just reached zero.
    pub fn next(&mut self) -> (r: bool)
        ensures
            final(self).max_len == old(self).max_len && final(self).mode == old(self).mode,
            old(self).mode == CounterMode::Counter && old(self).counter > 0 ==> final(self).counter == old(self).counter - 1,
            !(old(self).mode == CounterMode::Counter && old(self).counter > 0) ==> final(self).counter == old(self).counter,
            r == !(old(self).mode == CounterMode::Counter && old(self).counter == 1),
    {
        if self.is_on() && self.counter > 0 {
            self.counter = self.counter - 1;
            if self.counter == 0 {
                return false;
            }
        }
        true
    }

    /// Trigger: an expired counter restarts from the maximum length.
    pub fn reset(&mut self)
        ensures
            final(self).max_len == old(self).max_len && final(self).mode == old(self).mode,
            final(self).counter == if old(self).counter == 0 {
                old(self).max_len
            } else {
                old(self).counter
            },
    {
        if self.counter == 0 {
            self.counter = self.max_len;
        }
    }

    pub fn set_counter(&mut self, counter: u16)
        ensures
            *final(self) == (LengthCounter { counter, ..*old(self) }),
    {
        self.counter = counter;
    }

    pub fn set_mode_on(&mut self, counter: bool)
        ensures
            *final(self) == (LengthCounter {
                mode: if counter {
                    CounterMode::Counter
                } else {
                    CounterMode::Continuous
                },
                ..*old(self)
            }),
    {
        self.mode = if counter {
            CounterMode::Counter
        } else {
            CounterMode::Continuous
        };
    }

    pub fn is_on(&self) -> (r: bool)
        ensures
            r == (self.mode == CounterMode::Counter),
    {
        self.mode == CounterMode::Counter
    }
}

} // verus!
