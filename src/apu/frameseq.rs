//! The 512 Hz frame sequencer and its eight steps.
use vstd::prelude::*;
use super::timer::Timer;
use super::freq_to_period;

verus! {

/// Rate of the frame sequencer in Hz.
pub const FRAME_SEQUENCER_FREQUENCY: u32 = 512;

pub struct FrameSequencer {
    pub timer: Timer,
    pub step: u8,
}

impl FrameSequencer {
    pub open spec fn wf(&self) -> bool {
        self.step < 8
    }

    pub fn new() -> (r: Self)
        ensures
            r.wf(),
            r.step == 7,
            r.timer.period == 8192 && r.timer.counter == 0,
    {
        FrameSequencer { timer: Timer::new(freq_to_period(FRAME_SEQUENCER_FREQUENCY)), step: 7 }
    }

    /// Moves to the next step when the timer fires and returns it.
    pub fn next(&mut self) -> (r: Option<u8>)
        requires
            old(self).wf(),
        ensures
            final(self).wf(),
            final(self).timer.period == old(self).timer.period,
            old(self).timer.counter == 0 ==> r == Some(final(self).step) && final(self).step == (
            old(self).step + 1) % 8,
            old(self).timer.counter != 0 ==> r is None && final(self).step == old(self).step,
    {
        if self.timer.tick() {
            self.step = (self.step + 1) % 8;
            Some(self.step)
        } else {
            None
        }
    }

    /// Places the sequencer on a step, so that the next one follows it.
    pub fn set_step(&mut self, step: u8)
        requires
            step < 8,
        ensures
            final(self).wf(),
            final(self).step == step,
            final(self).timer == old(self).timer,
    {
        self.step = step;
    }
}

} // verus!
