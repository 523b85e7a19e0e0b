//! The noise channel: LFSR, length counter and envelope.
use vstd::prelude::*;
use super::{ChannelMode, DacMode};
use super::envelope::Envelope;
use super::lencounter::LengthCounter;
use super::lfsr::LFSR;
use crate::bits::lemma_u8_bits;

verus! {

pub struct Noise {
    pub rand: LFSR,
    pub envelope: Envelope,
    pub counter: LengthCounter,
    pub mode: ChannelMode,
    pub dac: DacMode,
}

impl Noise {
    pub open spec fn wf(&self) -> bool {
        self.envelope.wf() && self.counter.max_len == 64
    }

    pub open spec fn on(&self) -> bool {
        self.mode == ChannelMode::On
    }

    pub open spec fn dac_on(&self) -> bool {
        self.dac == DacMode::On
    }

    pub fn new() -> (r: Self)
        ensures
            r.wf(),
            !r.on() && !r.dac_on(),
    {
        Noise {
            rand: LFSR::new(),
            envelope: Envelope::new(),
            counter: LengthCounter::new(64),
            mode: ChannelMode::Off,
            dac: DacMode::Off,
        }
    }

    /// One clock: the envelope volume while the register's low bit is clear
    /// and the DAC and channel are on, else 0.
    pub fn next(&mut self) -> (r: u8)
        requires
            old(self).wf(),
        ensures
            final(self).wf(),
            final(self).mode == old(self).mode && final(self).dac == old(self).dac,
            final(self).envelope == old(self).envelope,
            r == if old(self).dac_on() && old(self).on() && final(self).rand.shift_reg % 2 == 0 {
                old(self).envelope.volume
            } else {
                0
            },
            r < 16,
    {
        let mut output: u8 = 0;
        if self.is_dac_on() && self.is_on() {
            let level = self.rand.next();
            output = if level == 0 {
                0
            } else {
                self.envelope.volume()
            };
        }
        output
    }

    /// This channel has no NR40.
    pub fn set_x0(&mut self, _data: u8)
        ensures
            *final(self) == *old(self),
    {
    }

    /// NR41: length load `64 - L`.
    pub fn set_x1(&mut self, data: u8)
        requires
            old(self).wf(),
        ensures
            final(self).wf(),
            final(self).counter.counter == 64 - data % 64,
            final(self).mode == old(self).mode,
    {
        proof {
            lemma_u8_bits();
        }
        self.counter.set_counter(64 - (data & 0x3f) as u16);
    }

    /// NR42: start volume, direction and period; DAC power from the top five bits.
    pub fn set_x2(&mut self, data: u8)
        requires
            old(self).wf(),
        ensures
            final(self).wf(),
            final(self).envelope.start_volume == data / 16,
            final(self).envelope.period == data % 8,
            final(self).dac_on() == (data / 8 != 0),
            final(self).mode == old(self).mode,
    {
        proof {
            lemma_u8_bits();
        }
        self.envelope.set_start_volume((data & 0xf0) >> 4);
        self.envelope.set_increment((data & 0x08) != 0);
        self.envelope.set_period(data & 0x07);
        self.dac = if (data & 0xf8) != 0 {
            DacMode::On
        } else {
            DacMode::Off
        };
    }

    /// NR43: LFSR width and clock.
    pub fn set_x3(&mut self, data: u8)
        requires
            old(self).wf(),
        ensures
            final(self).wf(),
            final(self).mode == old(self).mode,
    {
        self.rand.set_state(data);
    }

    /// NR44: length enable and trigger; a trigger turns the channel on unless
    /// the DAC is off and resets envelope, length and register.
    pub fn set_x4(&mut self, data: u8)
        requires
            old(self).wf(),
        ensures
            final(self).wf(),
            final(self).counter.is_on_spec() == ((data / 64) % 2 == 1),
            data < 128 ==> final(self).mode == old(self).mode,
            data >= 128 ==> final(self).on() == old(self).dac_on() && final(self).rand.shift_reg
                == 0x7fff,
    {
        proof {
            lemma_u8_bits();
        }
        self.counter.set_mode_on(data & 0x40 != 0);
        if data & 0x80 != 0 {
            self.mode = ChannelMode::On;
            self.envelope.reset();
            self.counter.reset();
            self.rand.reset();
            if !self.is_dac_on() {
                self.mode = ChannelMode::Off;
            }
        }
    }

    /// Length clock: the channel goes off when the counter runs out.
    pub fn tick_len_counter(&mut self)
        requires
            old(self).wf(),
        ensures
            final(self).wf(),
            final(self).dac == old(self).dac,
            final(self).on() == (old(self).on() && !(old(self).counter.is_on_spec()
                && old(self).counter.counter == 1)),
    {
        if !self.counter.next() {
            self.mode = ChannelMode::Off;
        }
    }

    pub fn tick_envelope(&mut self)
        requires
            old(self).wf(),
        ensures
            final(self).wf(),
            final(self).mode == old(self).mode && final(self).dac == old(self).dac,
    {
        self.envelope.next();
    }

    pub fn is_on(&self) -> (r: bool)
        ensures
            r == self.on(),
    {
        self.mode == ChannelMode::On
    }

    pub fn is_dac_on(&self) -> (r: bool)
        ensures
            r == self.dac_on(),
    {
        self.dac == DacMode::On
    }
}

} // verus!
