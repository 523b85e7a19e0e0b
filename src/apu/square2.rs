//! The second square channel: duty, length counter and envelope, no sweep.
use vstd::prelude::*;
use super::{ChannelMode, DacMode, freq_high, freq_low, spec_freq_high, spec_freq_low};
use super::duty::{Duty, duty_level, timer_period};
use super::envelope::Envelope;
use super::lencounter::LengthCounter;
use crate::bits::lemma_u8_bits;

verus! {

pub struct Square2 {
    pub duty: Duty,
    pub counter: LengthCounter,
    pub envelope: Envelope,
    pub mode: ChannelMode,
    pub dac: DacMode,
}

impl Square2 {
    pub open spec fn wf(&self) -> bool {
        self.duty.wf() && self.envelope.wf() && self.counter.max_len == 64
    }

    pub open spec fn on(&self) -> bool {
        self.mode == ChannelMode::On
    }

    pub open spec fn dac_on(&self) -> bool {
        self.dac == DacMode::On
    }

    pub fn new() -> (r: Self)
        ensures
            r.wf(),
            !r.on() && !r.dac_on(),
    {
        Square2 {
            duty: Duty::new(),
            counter: LengthCounter::new(64),
            envelope: Envelope::new(),
            mode: ChannelMode::Off,
            dac: DacMode::Off,
        }
    }

    /// One clock: the envelope volume times the duty level while the DAC and
    /// the channel are on, else 0.
    pub fn next(&mut self) -> (r: u8)
        requires
            old(self).wf(),
        ensures
            final(self).wf(),
            final(self).mode == old(self).mode && final(self).dac == old(self).dac,
            final(self).envelope == old(self).envelope,
            r == if old(self).dac_on() && old(self).on() {
                if duty_level(final(self).duty.duty as int, final(self).duty.step as int) == 0 {
                    0
                } else {
                    old(self).envelope.volume
                }
            } else {
                0
            },
            r < 16,
    {
        let mut output: u8 = 0;
        if self.is_dac_on() && self.is_on() {
            let level = self.duty.next();
            output = if level == 0 {
                0
            } else {
                self.envelope.volume()
            };
        }
        output
    }

    /// This channel has no NR20.
    pub fn set_x0(&mut self, _data: u8)
        ensures
            *final(self) == *old(self),
    {
    }

    /// NR21: duty (bits 6-7) and length load `64 - L`.
    pub fn set_x1(&mut self, data: u8)
        requires
            old(self).wf(),
        ensures
            final(self).wf(),
            final(self).duty.duty == data / 64,
            final(self).counter.counter == 64 - data % 64,
            final(self).mode == old(self).mode,
    {
        proof {
            lemma_u8_bits();
        }
        self.duty.set_duty((data & 0xc0) >> 6);
        self.counter.set_counter(64 - (data & 0x3f) as u16);
    }

    /// NR22: start volume, direction, period; the DAC is on when any of the
    /// top five bits is set, and turning it off silences the channel.
    pub fn set_x2(&mut self, data: u8)
        requires
            old(self).wf(),
        ensures
            final(self).wf(),
            final(self).envelope.start_volume == data / 16,
            final(self).envelope.period == data % 8,
            final(self).dac_on() == (data / 8 != 0),
            final(self).mode == old(self).mode,
    {
        proof {
            lemma_u8_bits();
        }
        self.envelope.set_start_volume((data & 0xf0) >> 4);
        self.envelope.set_increment((data & 0x08) != 0);
        self.envelope.set_period(data & 0x07);
        self.dac = if (data & 0xf8) != 0 {
            DacMode::On
        } else {
            DacMode::Off
        };
    }

    /// NR23: low byte of the frequency.
    pub fn set_x3(&mut self, data: u8)
        requires
            old(self).wf(),
        ensures
            final(self).wf(),
            final(self).duty.freq == spec_freq_low(old(self).duty.freq, data),
            final(self).duty.timer.period == (2048 - final(self).duty.freq) * 4,
            final(self).mode == old(self).mode,
    {
        let freq = freq_low(self.duty.get_freq(), data);
        self.duty.set_freq(freq, timer_period(freq));
    }

    /// NR24: high frequency bits, length enable and trigger. A trigger turns
    /// the channel on unless the DAC is off, and resets duty timer, envelope
    /// and length.
    pub fn set_x4(&mut self, data: u8)
        requires
            old(self).wf(),
        ensures
            final(self).wf(),
            final(self).duty.freq == spec_freq_high(old(self).duty.freq, data),
            final(self).counter.is_on_spec() == ((data / 64) % 2 == 1),
            data < 128 ==> final(self).mode == old(self).mode,
            data >= 128 ==> final(self).on() == old(self).dac_on(),
    {
        proof {
            lemma_u8_bits();
        }
        let freq = freq_high(self.duty.get_freq(), data);
        self.duty.set_freq(freq, timer_period(freq));
        self.counter.set_mode_on(data & 0x40 != 0);
        if data & 0x80 != 0 {
            self.mode = ChannelMode::On;
            self.duty.reset_timer();
            self.envelope.reset();
            self.counter.reset();
            if !self.is_dac_on() {
                self.mode = ChannelMode::Off;
            }
        }
    }

    /// Length clock: the channel goes off when the counter runs out.
    pub fn tick_len_counter(&mut self)
        requires
            old(self).wf(),
        ensures
            final(self).wf(),
            final(self).dac == old(self).dac,
            final(self).on() == (old(self).on() && !(old(self).counter.is_on_spec()
                && old(self).counter.counter == 1)),
    {
        if !self.counter.next() {
            self.mode = ChannelMode::Off;
        }
    }

    pub fn tick_envelope(&mut self)
        requires
            old(self).wf(),
        ensures
            final(self).wf(),
            final(self).mode == old(self).mode && final(self).dac == old(self).dac,
    {
        self.envelope.next();
    }

    pub fn is_on(&self) -> (r: bool)
        ensures
            r == self.on(),
    {
        self.mode == ChannelMode::On
    }

    pub fn is_dac_on(&self) -> (r: bool)
        ensures
            r == self.dac_on(),
    {
        self.dac == DacMode::On
    }
}

} // verus!
