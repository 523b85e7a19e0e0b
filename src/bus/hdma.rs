//! CGB VRAM DMA: general-purpose (all at once) or one 16-byte block per HBlank.
use vstd::prelude::*;
use crate::bits::lemma_u8_bits;

verus! {

#[derive(Clone, Copy, Debug, PartialEq, Eq, Structural)]
pub enum HdmaMode {
    GDMA,
    HDMA,
}

pub struct Hdma {
    pub hdma_src: u16,
    pub hdma_dst: u16,
    /// Blocks of 16 bytes still to move.
    pub hdma_len: u16,
    pub mode: Option<HdmaMode>,
}

impl Hdma {
    /// The state after one update: a general transfer completes, an HBlank
    /// transfer moves one block when an HBlank began.
    pub open spec fn next_spec(self, hblank: bool) -> Hdma {
        match self.mode {
            Some(HdmaMode::GDMA) => Hdma {
                hdma_src: ((self.hdma_src + self.hdma_len * 16) % 0x10000) as u16,
                hdma_dst: ((self.hdma_dst + self.hdma_len * 16) % 0x10000) as u16,
                hdma_len: 0,
                mode: None,
            },
            Some(HdmaMode::HDMA) => if hblank {
                Hdma {
                    hdma_src: ((self.hdma_src + 0x10) % 0x10000) as u16,
                    hdma_dst: ((self.hdma_dst + 0x10) % 0x10000) as u16,
                    hdma_len: (self.hdma_len - 1) as u16,
                    mode: if self.hdma_len == 1 {
                        None
                    } else {
                        self.mode
                    },
                }
            } else {
                self
            },
            None => self,
        }
    }

    pub open spec fn wf(&self) -> bool {
        &&& self.hdma_len <= 0xff
        &&& self.mode == Some(HdmaMode::HDMA) ==> self.hdma_len >= 1
    }

    pub fn new() -> (r: Self)
        ensures
            r.wf(),
            r.mode is None,
    {
        Hdma { hdma_src: 0, hdma_dst: 0, hdma_len: 0, mode: None }
    }

    /// Yields the next transfer `(source, destination, length)`: the whole
    /// GDMA at once, or one 16-byte block of HDMA when an HBlank began.
    pub fn update(&mut self, hblank: bool) -> (r: Option<(u16, u16, u16)>)
        requires
            old(self).wf(),
        ensures
            final(self).wf(),
            *final(self) == old(self).next_spec(hblank),
            old(self).mode == Some(HdmaMode::GDMA) ==> r == Some(
                (old(self).hdma_src, old(self).hdma_dst, (old(self).hdma_len * 16) as u16),
            ) && final(self).mode is None && final(self).hdma_len == 0,
            old(self).mode == Some(HdmaMode::HDMA) && hblank ==> r == Some(
                (old(self).hdma_src, old(self).hdma_dst, 0x10u16),
            ) && final(self).hdma_len == old(self).hdma_len - 1 && (final(self).mode is None
                <==> old(self).hdma_len == 1),
            old(self).mode is None || (old(self).mode == Some(HdmaMode::HDMA) && !hblank) ==> r is None
                && *final(self) == *old(self),
    {
        match self.mode {
            Some(HdmaMode::GDMA) => {
                let len = self.hdma_len * 16;
                let out = (self.hdma_src, self.hdma_dst, len);
                self.hdma_src = self.hdma_src.wrapping_add(len);
                self.hdma_dst = self.hdma_dst.wrapping_add(len);
                self.hdma_len = 0;
                self.mode = None;
                Some(out)
            },
            Some(HdmaMode::HDMA) => {
                if hblank {
                    let out = (self.hdma_src, self.hdma_dst, 0x10u16);
                    self.hdma_src = self.hdma_src.wrapping_add(0x10);
                    self.hdma_dst = self.hdma_dst.wrapping_add(0x10);
                    self.hdma_len = self.hdma_len - 1;
                    if self.hdma_len == 0 {
                        self.mode = None;
                    }
                    Some(out)
                } else {
                    None
                }
            },
            None => None,
        }
    }

    /// HDMA5 reads bit 7 set when idle, and the remaining blocks minus one.
    pub fn read(&self, addr: u16) -> (r: u8)
        ensures
            addr == 0xff55 ==> r == (if self.mode is None {
                0x80int
            } else {
                0
            }) + (self.hdma_len + 0xffff) % 0x10000 % 128,
            addr != 0xff55 ==> r == 0xff,
    {
        if addr == 0xff55 {
            let idle: u8 = if self.mode.is_none() {
                0x80
            } else {
                0
            };
            idle + (self.hdma_len.wrapping_sub(1) % 128) as u8
        } else {
            0xff
        }
    }

    /// HDMA1-HDMA5. Writing HDMA5 starts a transfer of `(data & 0x7f) + 1`
    /// blocks, general-purpose when bit 7 is clear, per HBlank when set; bit
    /// 7 clear while an HBlank transfer runs stops it instead.
    pub fn write(&mut self, addr: u16, data: u8)
        requires
            old(self).wf(),
            0xff51 <= addr <= 0xff55,
        ensures
            final(self).wf(),
            addr == 0xff51 ==> final(self).hdma_src == old(self).hdma_src % 256 + data * 256,
            addr == 0xff52 ==> final(self).hdma_src == (old(self).hdma_src / 256) * 256 + (data
                / 16) * 16,
            addr == 0xff53 ==> final(self).hdma_dst == 0x8000 + (data % 32) * 256 + old(self).hdma_dst % 256,
            addr == 0xff54 ==> final(self).hdma_dst == (old(self).hdma_dst / 256) * 256 + (data
                / 16) * 16,
            addr == 0xff55 && data < 0x80 && old(self).mode == Some(HdmaMode::HDMA) ==> final(self).mode is None && final(self).hdma_len == 0x80 + data,
            addr == 0xff55 && !(data < 0x80 && old(self).mode == Some(HdmaMode::HDMA)) ==> final(self).hdma_len == data % 128 + 1 && final(self).mode == if data < 0x80 {
                Some(HdmaMode::GDMA)
            } else {
                Some(HdmaMode::HDMA)
            },
    {
        proof {
            lemma_u8_bits();
        }
        if addr == 0xff51 {
            self.hdma_src = self.hdma_src % 256 + data as u16 * 256;
        } else if addr == 0xff52 {
            self.hdma_src = (self.hdma_src / 256) * 256 + (data / 16) as u16 * 16;
        } else if addr == 0xff53 {
            self.hdma_dst = 0x8000 + (data % 32) as u16 * 256 + self.hdma_dst % 256;
        } else if addr == 0xff54 {
            self.hdma_dst = (self.hdma_dst / 256) * 256 + (data / 16) as u16 * 16;
        } else {
            if data < 0x80 && self.mode == Some(HdmaMode::HDMA) {
                self.hdma_len = 0x80 + data as u16;
                self.mode = None;
            } else {
                self.hdma_len = (data % 128) as u16 + 1;
                self.mode = if data < 0x80 {
                    Some(HdmaMode::GDMA)
                } else {
                    Some(HdmaMode::HDMA)
                };
            }
        }
    }
}

} // verus!
