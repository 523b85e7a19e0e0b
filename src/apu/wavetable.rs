//! The wave channel's 32 four-bit samples and the timer that walks them.
use vstd::prelude::*;
use super::timer::Timer;
use crate::bits::lemma_u8_bits;

verus! {

/// Wave RAM as the hardware leaves it at power-on.
pub open spec fn init_table() -> Seq<u8> {
    seq![
        0x08u8, 0x04, 0x04, 0x00, 0x04, 0x03, 0x0a, 0x0a, 0x02, 0x0d, 0x07, 0x08, 0x09, 0x02, 0x03,
        0x0c, 0x06, 0x00, 0x05, 0x09, 0x05, 0x09, 0x0b, 0x00, 0x03, 0x04, 0x0b, 0x08, 0x02, 0x0e,
        0x0d, 0x0a,
    ]
}

pub struct WaveTable {
    pub timer: Timer,
    pub freq: u32,
    pub index: usize,
    pub wave_table: Vec<u8>,
    pub sample_buffer: u8,
}

impl WaveTable {
    pub open spec fn wf(&self) -> bool {
        &&& self.wave_table@.len() == 32
        &&& forall|i: int| 0 <= i < 32 ==> #[trigger] self.wave_table@[i] < 16
        &&& self.index < 32
        &&& self.sample_buffer < 16
        &&& self.freq < 2048
    }

    pub fn new() -> (r: Self)
        ensures
            r.wf(),
            r.wave_table@ == init_table(),
            r.index == 0 && r.sample_buffer == 0 && r.freq == 0,
    {
        let wave_table = vec![
            0x08u8, 0x04, 0x04, 0x00, 0x04, 0x03, 0x0a, 0x0a, 0x02, 0x0d, 0x07, 0x08, 0x09, 0x02,
            0x03, 0x0c, 0x06, 0x00, 0x05, 0x09, 0x05, 0x09, 0x0b, 0x00, 0x03, 0x04, 0x0b, 0x08,
            0x02, 0x0e, 0x0d, 0x0a,
        ];
        assert(wave_table@ =~= init_table());
        WaveTable { timer: Timer::new(0), freq: 0, index: 0, wave_table, sample_buffer: 0 }
    }

    /// Moves to the next sample when the timer fires; returns the buffered sample.
    pub fn next(&mut self) -> (r: u8)
        requires
            old(self).wf(),
        ensures
            final(self).wf(),
            final(self).wave_table == old(self).wave_table,
            final(self).freq == old(self).freq,
            final(self).timer.period == old(self).timer.period,
            old(self).timer.counter == 0 ==> final(self).index == (old(self).index + 1) % 32
                && final(self).sample_buffer == old(self).wave_table@[final(self).index as int],
            old(self).timer.counter != 0 ==> final(self).index == old(self).index
                && final(self).sample_buffer == old(self).sample_buffer,
            r == final(self).sample_buffer,
    {
        if self.timer.tick() {
            self.index = (self.index + 1) % 32;
            self.sample_buffer = self.wave_table[self.index];
        }
        self.sample_buffer
    }

    /// Stores a byte of wave RAM as two samples, high nibble first.
    pub fn set_entry(&mut self, index: u16, data: u8)
        requires
            old(self).wf(),
            index < 16,
        ensures
            final(self).wf(),
            final(self).wave_table@ == old(self).wave_table@.update(2 * index as int, data / 16).update(
                2 * index + 1,
                data % 16,
            ),
            final(self).index == old(self).index && final(self).freq == old(self).freq,
            final(self).sample_buffer == old(self).sample_buffer,
            final(self).timer == old(self).timer,
    {
        proof {
            lemma_u8_bits();
        }
        let i = index as usize * 2;
        self.wave_table[i] = (data & 0xf0) >> 4;
        self.wave_table[i + 1] = data & 0x0f;
    }

    /// A byte of wave RAM: the two samples at `2 * index`, high nibble first.
    pub fn get_entry(&self, index: u16) -> (r: u8)
        requires
            self.wf(),
            index < 16,
        ensures
            r == self.wave_table@[2 * index as int] * 16 + self.wave_table@[2 * index + 1],
    {
        let i = index as usize * 2;
        self.wave_table[i] * 16 + self.wave_table[i + 1]
    }

    /// The byte of wave RAM that holds the current sample.
    pub fn get_current(&self) -> (r: u8)
        requires
            self.wf(),
        ensures
            r == self.wave_table@[self.index - self.index % 2] * 16 + self.wave_table@[self.index
                - self.index % 2 + 1],
    {
        let i = self.index - self.index % 2;
        self.wave_table[i] * 16 + self.wave_table[i + 1]
    }

    pub fn set_freq(&mut self, freq: u32, period: u32)
        requires
            old(self).wf(),
            freq < 2048,
        ensures
            final(self).wf(),
            final(self).freq == freq && final(self).timer.period == period,
            final(self).timer.counter == old(self).timer.counter,
            final(self).wave_table == old(self).wave_table,
            final(self).index == old(self).index,
            final(self).sample_buffer == old(self).sample_buffer,
    {
        self.freq = freq;
        self.timer.set_period(period);
    }

    pub fn get_freq(&self) -> (r: u32)
        ensures
            r == self.freq,
    {
        self.freq
    }

    /// Trigger: back to the first sample with an empty buffer.
    pub fn reset(&mut self)
        requires
            old(self).wf(),
        ensures
            final(self).wf(),
            final(self).index == 0 && final(self).sample_buffer == 0,
            final(self).timer.counter == old(self).timer.period,
            final(self).timer.period == old(self).timer.period,
            final(self).wave_table == old(self).wave_table,
            final(self).freq == old(self).freq,
    {
        self.index = 0;
        self.sample_buffer = 0;
        self.timer.reset();
    }
}

} // verus!
