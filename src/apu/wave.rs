//! The wave channel: wave table, length counter and volume shift.
use vstd::prelude::*;
use super::{ChannelMode, DacMode, freq_high, freq_low, spec_freq_high, spec_freq_low};
use super::lencounter::LengthCounter;
use super::wavetable::WaveTable;
use crate::bits::lemma_u8_bits;

verus! {

/// Right shift of the samples for each NR32 volume code (mute, 100%, 50%, 25%).
pub open spec fn volume_shift_of(code: int) -> u8 {
    if code == 0 {
        4
    } else if code == 1 {
        0
    } else if code == 2 {
        1
    } else {
        2
    }
}

/// Period of the wave channel's timer: `(2048 - freq) * 2`.
pub fn wave_timer_period(freq: u32) -> (r: u32)
    requires
        freq < 2048,
    ensures
        r == (2048 - freq) * 2,
{
    (2048 - freq) * 2
}

pub struct Wave {
    pub wave_table: WaveTable,
    pub counter: LengthCounter,
    pub volume_shift: u8,
    pub mode: ChannelMode,
    pub dac: DacMode,
}

impl Wave {
    pub open spec fn wf(&self) -> bool {
        self.wave_table.wf() && self.counter.max_len == 256 && self.volume_shift <= 4
    }

    pub open spec fn on(&self) -> bool {
        self.mode == ChannelMode::On
    }

    pub open spec fn dac_on(&self) -> bool {
        self.dac == DacMode::On
    }

    pub fn new() -> (r: Self)
        ensures
            r.wf(),
            !r.on() && !r.dac_on(),
    {
        Wave {
            wave_table: WaveTable::new(),
            counter: LengthCounter::new(256),
            volume_shift: 0,
            mode: ChannelMode::Off,
            dac: DacMode::Off,
        }
    }

    /// One clock: the current sample shifted right by the volume shift while
    /// the DAC and the channel are on, else 0.
    pub fn next(&mut self) -> (r: u8)
        requires
            old(self).wf(),
        ensures
            final(self).wf(),
            final(self).mode == old(self).mode && final(self).dac == old(self).dac,
            final(self).volume_shift == old(self).volume_shift,
            r == if old(self).dac_on() && old(self).on() {
                final(self).wave_table.sample_buffer / shift_factor(old(self).volume_shift)
            } else {
                0
            },
            r < 16,
    {
        let mut output: u8 = 0;
        if self.is_dac_on() && self.is_on() {
            let sample = self.wave_table.next();
            let f: u8 = if self.volume_shift == 0 {
                1
            } else if self.volume_shift == 1 {
                2
            } else if self.volume_shift == 2 {
                4
            } else if self.volume_shift == 3 {
                8
            } else {
                16
            };
            output = sample / f;
        }
        output
    }

    /// Wave RAM writes are ignored while the channel plays.
    pub fn write_wave(&mut self, addr: u16, data: u8)
        requires
            old(self).wf(),
            addr < 16,
        ensures
            final(self).wf(),
            final(self).mode == old(self).mode && final(self).dac == old(self).dac,
            old(self).on() ==> final(self).wave_table == old(self).wave_table,
            !old(self).on() ==> final(self).wave_table.wave_table@
                == old(self).wave_table.wave_table@.update(2 * addr as int, data / 16).update(
                2 * addr + 1,
                data % 16,
            ),
    {
        if !self.is_on() {
            self.wave_table.set_entry(addr, data);
        }
    }

    /// Wave RAM reads give the byte being played while the channel is on.
    pub fn read_wave(&self, addr: u16) -> (r: u8)
        requires
            self.wf(),
            addr < 16,
        ensures
            !self.on() ==> r == self.wave_table.wave_table@[2 * addr as int] * 16
                + self.wave_table.wave_table@[2 * addr + 1],
    {
        if self.is_on() {
            self.wave_table.get_current()
        } else {
            self.wave_table.get_entry(addr)
        }
    }

    /// NR30: DAC power (bit 7).
    pub fn set_x0(&mut self, data: u8)
        requires
            old(self).wf(),
        ensures
            final(self).wf(),
            final(self).dac_on() == (data >= 128),
            final(self).mode == old(self).mode,
    {
        self.dac = if data >= 128 {
            DacMode::On
        } else {
            DacMode::Off
        };
    }

    /// NR31: length load `256 - L`.
    pub fn set_x1(&mut self, data: u8)
        requires
            old(self).wf(),
        ensures
            final(self).wf(),
            final(self).counter.counter == 256 - data,
            final(self).mode == old(self).mode,
    {
        self.counter.set_counter(256 - data as u16);
    }

    /// NR32: volume code (bits 5-6).
    pub fn set_x2(&mut self, data: u8)
        requires
            old(self).wf(),
        ensures
            final(self).wf(),
            final(self).volume_shift == volume_shift_of(((data / 32) % 4) as int),
            final(self).mode == old(self).mode,
    {
        proof {
            lemma_u8_bits();
        }
        let code = (data & 0x60) >> 5;
        self.volume_shift = if code == 0 {
            4
        } else if code == 1 {
            0
        } else if code == 2 {
            1
        } else {
            2
        };
    }

    /// NR33: low byte of the frequency.
    pub fn set_x3(&mut self, data: u8)
        requires
            old(self).wf(),
        ensures
            final(self).wf(),
            final(self).wave_table.freq == spec_freq_low(old(self).wave_table.freq, data),
            final(self).wave_table.timer.period == (2048 - final(self).wave_table.freq) * 2,
            final(self).mode == old(self).mode,
    {
        let freq = freq_low(self.wave_table.get_freq(), data);
        self.wave_table.set_freq(freq, wave_timer_period(freq));
    }

    /// NR34: high frequency bits, length enable and trigger; a trigger turns
    /// the channel on unless the DAC is off and restarts the table.
    pub fn set_x4(&mut self, data: u8)
        requires
            old(self).wf(),
        ensures
            final(self).wf(),
            final(self).wave_table.freq == spec_freq_high(old(self).wave_table.freq, data),
            final(self).counter.is_on_spec() == ((data / 64) % 2 == 1),
            data < 128 ==> final(self).mode == old(self).mode,
            data >= 128 ==> final(self).on() == old(self).dac_on() && final(self).wave_table.index
                == 0,
    {
        proof {
            lemma_u8_bits();
        }
        let freq = freq_high(self.wave_table.get_freq(), data);
        self.wave_table.set_freq(freq, wave_timer_period(freq));
        self.counter.set_mode_on(data & 0x40 != 0);
        if data & 0x80 != 0 {
            self.mode = ChannelMode::On;
            self.wave_table.reset();
            self.counter.reset();
            if !self.is_dac_on() {
                self.mode = ChannelMode::Off;
            }
        }
    }

    /// Length clock: the channel goes off when the counter runs out.
    pub fn tick_len_counter(&mut self)
        requires
            old(self).wf(),
        ensures
            final(self).wf(),
            final(self).dac == old(self).dac,
            final(self).on() == (old(self).on() && !(old(self).counter.is_on_spec()
                && old(self).counter.counter == 1)),
    {
        if !self.counter.next() {
            self.mode = ChannelMode::Off;
        }
    }

    pub fn is_on(&self) -> (r: bool)
        ensures
            r == self.on(),
    {
        self.mode == ChannelMode::On
    }

    pub fn is_dac_on(&self) -> (r: bool)
        ensures
            r == self.dac_on(),
    {
        self.dac == DacMode::On
    }
}

/// `2^shift` for a volume shift.
pub open spec fn shift_factor(shift: u8) -> u8 {
    if shift == 0 {
        1
    } else if shift == 1 {
        2
    } else if shift == 2 {
        4
    } else if shift == 3 {
        8
    } else {
        16
    }
}

} // verus!
