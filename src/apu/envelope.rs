//! The volume envelope of the square and noise channels.
use vstd::prelude::*;

verus! {

#[derive(Clone, Copy, Debug, PartialEq, Eq, Structural)]
pub enum EnvelopeMode {
    Inc,
    Dec,
}

pub struct Envelope {
    pub period: u8,
    pub counter: u8,
    pub volume: u8,
    pub start_volume: u8,
    pub mode: EnvelopeMode,
}

impl Envelope {
    /// Volumes stay within 0..=15; the period and counter within 0..=8.
    pub open spec fn wf(&self) -> bool {
        self.volume < 16 && self.start_volume < 16 && self.period < 8 && self.counter <= 8
    }

    pub fn new() -> (r: Self)
        ensures
            r.wf(),
            r.period == 0 && r.counter == 0 && r.volume == 0 && r.start_volume == 0,
            r.mode == EnvelopeMode::Inc,
    {
        Envelope { period: 0, counter: 0, volume: 0, start_volume: 0, mode: EnvelopeMode::Inc }
    }

    /// One envelope clock: when the counter runs out it reloads and the
    /// volume moves one step, stopping at 0 or 15 (the envelope then halts).
    pub fn next(&mut self)
        requires
            old(self).wf(),
        ensures
            final(self).wf(),
            final(self).period == old(self).period && final(self).mode == old(self).mode,
            final(self).start_volume == old(self).start_volume,
            !(old(self).period > 0 && old(self).counter > 0) ==> *final(self) == *old(self),
            old(self).period > 0 && old(self).counter > 1 ==> final(self).counter == old(self).counter - 1 && final(self).volume == old(self).volume,
            old(self).period > 0 && old(self).counter == 1 ==> {
                let v = if old(self).mode == EnvelopeMode::Inc {
                    old(self).volume + 1
                } else {
                    old(self).volume - 1
                };
                if 0 <= v < 16 {
                    final(self).volume == v && final(self).counter == old(self).period
                } else {
                    final(self).volume == old(self).volume && final(self).counter == 0
                }
            },
    {
        if self.period > 0 && self.counter > 0 {
            self.counter = self.counter - 1;
            if self.counter == 0 {
                self.counter = self.period;
                let volume = match self.mode {
                    EnvelopeMode::Inc => self.volume + 1,
                    EnvelopeMode::Dec => self.volume.wrapping_sub(1),
                };
                if volume < 16 {
                    self.volume = volume;
                } else {
                    self.counter = 0;
                }
            }
        }
    }

    pub fn volume(&self) -> (r: u8)
        ensures
            r == self.volume,
    {
        self.volume
    }

    /// Trigger: reload the counter (8 when the period is 0) and the volume.
    pub fn reset(&mut self)
        requires
            old(self).wf(),
        ensures
            final(self).wf(),
            final(self).counter == if old(self).period > 0 {
                old(self).period
            } else {
                8
            },
            final(self).volume == old(self).start_volume,
            final(self).period == old(self).period && final(self).mode == old(self).mode,
            final(self).start_volume == old(self).start_volume,
    {
        self.counter = if self.period > 0 {
            self.period
        } else {
            8
        };
        self.volume = self.start_volume;
    }

    pub fn set_start_volume(&mut self, volume: u8)
        requires
            old(self).wf(),
            volume < 16,
        ensures
            final(self).wf(),
            *final(self) == (Envelope { start_volume: volume, ..*old(self) }),
    {
        self.start_volume = volume;
    }

    pub fn set_period(&mut self, period: u8)
        requires
            old(self).wf(),
            period < 8,
        ensures
            final(self).wf(),
            *final(self) == (Envelope { period, ..*old(self) }),
    {
        self.period = period;
    }

    pub fn set_increment(&mut self, increment: bool)
        requires
            old(self).wf(),
        ensures
            final(self).wf(),
            *final(self) == (Envelope {
                mode: if increment {
                    EnvelopeMode::Inc
                } else {
                    EnvelopeMode::Dec
                },
                ..*old(self)
            }),
    {
        self.mode = if increment {
            EnvelopeMode::Inc
        } else {
            EnvelopeMode::Dec
        };
    }
}

} // verus!
