//! The first square channel: sweep, duty, length counter and envelope.
use vstd::prelude::*;
use super::{ChannelMode, DacMode, freq_high, freq_low, spec_freq_high, spec_freq_low};
use super::duty::{Duty, duty_level, timer_period};
use super::envelope::EnvelopeMode;
use super::timer::Timer;
use super::envelope::Envelope;
use super::lencounter::LengthCounter;
use super::sweep::{Sweep, sweep_freq};
use crate::bits::lemma_u8_bits;

verus! {

/// NR10 written: the sweep's period, direction and shift replaced.
pub open spec fn x0_written(old: Square, new: Square, data: u8) -> bool {
    new == (Square {
        sweep: Sweep {
            period: ((data / 16) % 8) as u8,
            negate: (data / 8) % 2 == 1,
            shift: data % 8,
            ..old.sweep
        },
        ..old
    })
}

/// NR11 written: duty and length load replaced.
pub open spec fn x1_written(old: Square, new: Square, data: u8) -> bool {
    new == (Square {
        duty: Duty { duty: (data / 64) as usize, ..old.duty },
        counter: LengthCounter { counter: (64 - data % 64) as u16, ..old.counter },
        ..old
    })
}

/// NR12 written: envelope start, direction and period replaced; the DAC
/// follows the top five bits, and a DAC turned off silences the channel.
pub open spec fn x2_written(old: Square, new: Square, data: u8) -> bool {
    new == (Square {
        envelope: Envelope {
            start_volume: data / 16,
            period: data % 8,
            mode: if (data / 8) % 2 == 1 {
                EnvelopeMode::Inc
            } else {
                EnvelopeMode::Dec
            },
            ..old.envelope
        },
        dac: if data / 8 != 0 {
            DacMode::On
        } else {
            DacMode::Off
        },
        mode: if data / 8 != 0 {
            old.mode
        } else {
            ChannelMode::Off
        },
        ..old
    })
}

/// NR13 written: the frequency's low byte and the timer period replaced.
pub open spec fn x3_written(old: Square, new: Square, data: u8) -> bool {
    let f = spec_freq_low(old.duty.freq, data);
    new == (Square {
        duty: Duty { freq: f, timer: Timer { period: ((2048 - f) * 4) as u32, ..old.duty.timer }, ..old.duty },
        ..old
    })
}

/// NR14 written: high frequency bits and length enable; on a trigger the
/// channel turns on unless the DAC is off or the sweep overflows at once.
pub open spec fn x4_written(old: Square, new: Square, data: u8) -> bool {
    &&& new.duty.freq == spec_freq_high(old.duty.freq, data)
    &&& new.counter.is_on_spec() == ((data / 64) % 2 == 1)
    &&& new.dac == old.dac
    &&& data < 128 ==> new.mode == old.mode
    &&& data >= 128 ==> new.on() == (old.dac_on() && !(old.sweep.period > 0 && old.sweep.shift > 0
        && sweep_freq(new.duty.freq, old.sweep.shift, old.sweep.negate) > 2047))
    &&& data >= 128 ==> new.sweep.shadow_freq == new.duty.freq
}

pub struct Square {
    pub duty: Duty,
    pub counter: LengthCounter,
    pub envelope: Envelope,
    pub sweep: Sweep,
    pub mode: ChannelMode,
    pub dac: DacMode,
}

impl Square {
    pub open spec fn wf(&self) -> bool {
        self.duty.wf() && self.envelope.wf() && self.sweep.wf() && self.counter.max_len == 64
    }

    pub open spec fn on(&self) -> bool {
        self.mode == ChannelMode::On
    }

    pub open spec fn dac_on(&self) -> bool {
        self.dac == DacMode::On
    }

    pub fn new() -> (r: Self)
        ensures
            r.wf(),
            !r.on() && !r.dac_on(),
    {
        Square {
            duty: Duty::new(),
            counter: LengthCounter::new(64),
            envelope: Envelope::new(),
            sweep: Sweep::new(),
            mode: ChannelMode::Off,
            dac: DacMode::Off,
        }
    }

    /// One clock: the envelope volume times the duty level while the DAC and
    /// the channel are on, else 0.
    pub fn next(&mut self) -> (r: u8)
        requires
            old(self).wf(),
        ensures
            final(self).wf(),
            final(self).mode == old(self).mode && final(self).dac == old(self).dac,
            final(self).envelope == old(self).envelope,
            r == if old(self).dac_on() && old(self).on() {
                if duty_level(final(self).duty.duty as int, final(self).duty.step as int) == 0 {
                    0
                } else {
                    old(self).envelope.volume
                }
            } else {
                0
            },
            r < 16,
    {
        let mut output: u8 = 0;
        if self.is_dac_on() && self.is_on() {
            let level = self.duty.next();
            output = if level == 0 {
                0
            } else {
                self.envelope.volume()
            };
        }
        output
    }

    /// NR10: sweep period (bits 4-6), negate (bit 3), shift (bits 0-2).
    pub fn set_x0(&mut self, data: u8)
        requires
            old(self).wf(),
        ensures
            final(self).wf(),
            x0_written(*old(self), *final(self), data),
    {
        proof {
            lemma_u8_bits();
        }
        self.sweep.period = (data & 0x70) >> 4;
        self.sweep.negate = (data & 0x08) != 0;
        self.sweep.shift = data & 0x07;
    }

    /// NR11: duty (bits 6-7) and length load `64 - L`.
    pub fn set_x1(&mut self, data: u8)
        requires
            old(self).wf(),
        ensures
            final(self).wf(),
            x1_written(*old(self), *final(self), data),
    {
        proof {
            lemma_u8_bits();
        }
        self.duty.set_duty((data & 0xc0) >> 6);
        self.counter.set_counter(64 - (data & 0x3f) as u16);
    }

    /// NR12: start volume, direction, period; the DAC is on when any of the
    /// top five bits is set, and turning it off silences the channel.
    pub fn set_x2(&mut self, data: u8)
        requires
            old(self).wf(),
        ensures
            final(self).wf(),
            x2_written(*old(self), *final(self), data),
    {
        proof {
            lemma_u8_bits();
        }
        self.envelope.set_start_volume((data & 0xf0) >> 4);
        self.envelope.set_increment((data & 0x08) != 0);
        self.envelope.set_period(data & 0x07);
        self.dac = if (data & 0xf8) != 0 {
            DacMode::On
        } else {
            self.mode = ChannelMode::Off;
            DacMode::Off
        };
    }

    /// NR13: low byte of the frequency.
    pub fn set_x3(&mut self, data: u8)
        requires
            old(self).wf(),
        ensures
            final(self).wf(),
            x3_written(*old(self), *final(self), data),
    {
        let freq = freq_low(self.duty.get_freq(), data);
        self.duty.set_freq(freq, timer_period(freq));
    }

    /// NR14: high frequency bits, length enable and trigger. A trigger turns
    /// the channel on, resets duty timer, envelope, length and sweep, and the
    /// channel goes off again when the sweep overflows at once or the DAC is off.
    pub fn set_x4(&mut self, data: u8)
        requires
            old(self).wf(),
        ensures
            final(self).wf(),
            x4_written(*old(self), *final(self), data),
    {
        proof {
            lemma_u8_bits();
        }
        let freq = freq_high(self.duty.get_freq(), data);
        self.duty.set_freq(freq, timer_period(freq));
        self.counter.set_mode_on(data & 0x40 != 0);
        if data & 0x80 != 0 {
            self.mode = ChannelMode::On;
            self.duty.reset_timer();
            self.envelope.reset();
            self.counter.reset();
            if !self.sweep.trigger(self.duty.get_freq()) {
                self.mode = ChannelMode::Off;
            }
            if !self.is_dac_on() {
                self.mode = ChannelMode::Off;
            }
        }
    }

    /// Sweep clock: the channel goes off when a computed frequency overflows.
    pub fn tick_sweep(&mut self)
        requires
            old(self).wf(),
        ensures
            final(self).wf(),
            final(self).dac == old(self).dac,
            !(old(self).sweep.period > 0 && old(self).sweep.counter == 1) ==> final(self).mode
                == old(self).mode,
            old(self).sweep.period > 0 && old(self).sweep.counter == 1 && sweep_freq(
                old(self).sweep.shadow_freq,
                old(self).sweep.shift,
                old(self).sweep.negate,
            ) > 2047 ==> !final(self).on(),
            old(self).sweep.period > 0 && old(self).sweep.counter == 1 && old(self).sweep.shift > 0
                && sweep_freq(final(self).sweep.shadow_freq, old(self).sweep.shift, old(self).sweep.negate)
                > 2047 ==> !final(self).on(),
            ({
                let n = sweep_freq(old(self).sweep.shadow_freq, old(self).sweep.shift, old(self).sweep.negate);
                old(self).sweep.period > 0 && old(self).sweep.counter == 1 && n <= 2047
                    && old(self).sweep.shift > 0 ==> final(self).sweep.shadow_freq == n
                    && final(self).duty.freq == n && (final(self).on() == (old(self).on()
                    && sweep_freq(n as u32, old(self).sweep.shift, old(self).sweep.negate) <= 2047))
            }),
    {
        if !self.sweep.next(&mut self.duty) {
            self.mode = ChannelMode::Off;
        }
    }

    /// Length clock: the channel goes off when the counter runs out.
    pub fn tick_len_counter(&mut self)
        requires
            old(self).wf(),
        ensures
            final(self).wf(),
            final(self).dac == old(self).dac,
            final(self).on() == (old(self).on() && !(old(self).counter.is_on_spec()
                && old(self).counter.counter == 1)),
    {
        if !self.counter.next() {
            self.mode = ChannelMode::Off;
        }
    }

    pub fn tick_envelope(&mut self)
        requires
            old(self).wf(),
        ensures
            final(self).wf(),
            final(self).mode == old(self).mode && final(self).dac == old(self).dac,
    {
        self.envelope.next();
    }

    pub fn is_on(&self) -> (r: bool)
        ensures
            r == self.on(),
    {
        self.mode == ChannelMode::On
    }

    pub fn is_dac_on(&self) -> (r: bool)
        ensures
            r == self.dac_on(),
    {
        self.dac == DacMode::On
    }
}

} // verus!
