//! OAM DMA: 160 bytes copied into OAM one per clock after a one-clock delay.
use vstd::prelude::*;

verus! {

/// Bytes copied by one OAM DMA.
pub const DMA_LEN: u16 = 160;

pub struct Dma {
    pub src: u16,
    pub offset: u16,
    pub active: bool,
    pub delay: bool,
}

impl Dma {
    /// The state after one clock.
    pub open spec fn ticked(self) -> Dma {
        if self.delay {
            Dma { delay: false, ..self }
        } else if self.active {
            Dma {
                offset: ((self.offset + 1) % DMA_LEN as int) as u16,
                active: self.offset + 1 < DMA_LEN,
                ..self
            }
        } else {
            self
        }
    }

    /// The state after `n` clocks.
    pub open spec fn ticked_n(self, n: nat) -> Dma
        decreases n,
    {
        if n == 0 {
            self
        } else {
            self.ticked_n((n - 1) as nat).ticked()
        }
    }

    pub open spec fn wf(&self) -> bool {
        self.offset < DMA_LEN && self.src % 256 == 0
    }

    pub fn new() -> (r: Self)
        ensures
            r.wf(),
            !r.active && !r.delay,
    {
        Dma { src: 0, offset: 0, active: false, delay: false }
    }

    /// One clock: spends the start delay, or yields the next `(source
    /// address, OAM offset)` pair, ending after the 160th.
    pub fn update(&mut self) -> (r: Option<(u16, u16)>)
        requires
            old(self).wf(),
        ensures
            final(self).wf(),
            *final(self) == old(self).ticked(),
            final(self).src == old(self).src,
            old(self).delay ==> r is None && !final(self).delay && final(self).active == old(self).active && final(self).offset == old(self).offset,
            !old(self).delay && !old(self).active ==> r is None && *final(self) == *old(self),
            !old(self).delay && old(self).active ==> r == Some(
                ((old(self).src + old(self).offset) as u16, old(self).offset),
            ) && final(self).active == (old(self).offset + 1 < DMA_LEN) && final(self).offset == (
            old(self).offset + 1) % DMA_LEN as int && !final(self).delay,
    {
        if self.delay {
            self.delay = false;
        } else if self.active {
            let out = Some((self.src + self.offset, self.offset));
            self.offset = self.offset + 1;
            if self.offset == DMA_LEN {
                self.active = false;
                self.offset = 0;
            }
            return out;
        }
        None
    }

    /// DMA reads back as 0.
    pub fn read(&self, _addr: u16) -> (r: u8)
        ensures
            r == 0,
    {
        0
    }

    /// Starts a transfer from `data << 8`.
    pub fn write(&mut self, _addr: u16, data: u8)
        ensures
            final(self).wf(),
            final(self).src == data as u16 * 256,
            final(self).offset == 0 && final(self).active && final(self).delay,
    {
        self.src = data as u16 * 256;
        self.offset = 0;
        self.active = true;
        self.delay = true;
    }
}

} // verus!
