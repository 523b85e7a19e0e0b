//! The square channels' duty-cycle generator.
use vstd::prelude::*;
use super::timer::Timer;

verus! {

/// The eight-step waveform of a duty setting, first step in the high bit.
pub open spec fn duty_pattern(duty: int) -> u8 {
    if duty == 0 {
        0x01
    } else if duty == 1 {
        0x81
    } else if duty == 2 {
        0x87
    } else {
        0x7e
    }
}

/// `2^n` for a shift of a byte (`n < 8`).
pub open spec fn shift_div(n: int) -> int {
    if n <= 0 {
        1
    } else if n == 1 {
        2
    } else if n == 2 {
        4
    } else if n == 3 {
        8
    } else if n == 4 {
        16
    } else if n == 5 {
        32
    } else if n == 6 {
        64
    } else {
        128
    }
}

/// The level of a duty waveform at one of its eight steps.
pub open spec fn duty_level(duty: int, step: int) -> u8 {
    ((duty_pattern(duty) as int / shift_div(7 - step)) % 2) as u8
}

fn level(duty: usize, step: usize) -> (r: u8)
    requires
        duty < 4,
        step < 8,
    ensures
        r == duty_level(duty as int, step as int),
        r <= 1,
{
    let pattern: u8 = if duty == 0 {
        0x01
    } else if duty == 1 {
        0x81
    } else if duty == 2 {
        0x87
    } else {
        0x7e
    };
    let n = 7 - step;
    let d: u8 = if n == 0 {
        1
    } else if n == 1 {
        2
    } else if n == 2 {
        4
    } else if n == 3 {
        8
    } else if n == 4 {
        16
    } else if n == 5 {
        32
    } else if n == 6 {
        64
    } else {
        128
    };
    (pattern / d) % 2
}

pub struct Duty {
    pub duty: usize,
    pub step: usize,
    pub freq: u32,
    pub timer: Timer,
}

impl Duty {
    pub open spec fn wf(&self) -> bool {
        self.duty < 4 && self.step < 8 && self.freq < 2048
    }

    pub fn new() -> (r: Self)
        ensures
            r.wf(),
            r.duty == 0 && r.step == 0 && r.freq == 0,
            r.timer.period == u32::MAX,
    {
        Duty { duty: 0, step: 0, freq: 0, timer: Timer::new(u32::MAX) }
    }

    /// Advances the timer, moving one step along the waveform when it
    /// fires, and returns the waveform's level (0 or 1).
    pub fn next(&mut self) -> (r: u8)
        requires
            old(self).wf(),
        ensures
            final(self).wf(),
            final(self).duty == old(self).duty && final(self).freq == old(self).freq,
            final(self).timer.period == old(self).timer.period,
            final(self).step == if old(self).timer.counter == 0 {
                (old(self).step + 1) % 8
            } else {
                old(self).step as int
            },
            r == duty_level(final(self).duty as int, final(self).step as int),
            r <= 1,
    {
        if self.timer.tick() {
            self.step = (self.step + 1) % 8;
        }
        level(self.duty, self.step)
    }

    pub fn set_duty(&mut self, data: u8)
        requires
            old(self).wf(),
            data < 4,
        ensures
            final(self).wf(),
            final(self).duty == data,
            final(self).step == old(self).step && final(self).freq == old(self).freq,
            final(self).timer == old(self).timer,
    {
        self.duty = data as usize;
    }

    pub fn set_freq(&mut self, freq: u32, period: u32)
        requires
            old(self).wf(),
            freq < 2048,
        ensures
            final(self).wf(),
            final(self).freq == freq && final(self).timer.period == period,
            final(self).timer.counter == old(self).timer.counter,
            final(self).duty == old(self).duty && final(self).step == old(self).step,
    {
        self.freq = freq;
        self.timer.set_period(period);
    }

    pub fn reset_timer(&mut self)
        requires
            old(self).wf(),
        ensures
            final(self).wf(),
            final(self).timer.counter == old(self).timer.period,
            final(self).timer.period == old(self).timer.period,
            final(self).duty == old(self).duty && final(self).step == old(self).step,
            final(self).freq == old(self).freq,
    {
        self.timer.reset();
    }

    pub fn get_freq(&self) -> (r: u32)
        ensures
            r == self.freq,
    {
        self.freq
    }
}

} // verus!

verus! {

/// Period of the square channels' frequency timer: `(2048 - freq) * 4`.
pub fn timer_period(freq: u32) -> (r: u32)
    requires
        freq < 2048,
    ensures
        r == (2048 - freq) * 4,
{
    (2048 - freq) * 4
}

} // verus!
