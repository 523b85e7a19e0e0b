//! MBC5: 9-bit ROM bank (up to 8 MiB) and up to 16 RAM banks.
use vstd::prelude::*;
use super::{rom_byte, ram_byte, read_rom};
use crate::bits::lemma_u8_bits;

verus! {

/// Bank 0 is never mapped at 4000: a zero bank number selects bank 1.
pub open spec fn nonzero_bank(b: int) -> int {
    if b == 0 {
        1
    } else {
        b
    }
}

/// What a write to the controller does (the contract of `write`).
pub open spec fn written(old: MBC5, new: MBC5, addr: u16, data: u8) -> bool {
    &&& new.max_rom == old.max_rom && new.max_ram == old.max_ram
    &&& new.ram@.len() == old.ram@.len()
    &&& addr <= 0x1fff ==> new.ram_enable == (old.max_ram > 0 && data % 16
                    == 0x0a)
    &&& 0x2000 <= addr <= 0x2fff ==> new.rom_bank == nonzero_bank(((old.rom_bank / 256) * 256
                    + data) % old.max_rom as int)
    &&& 0x3000 <= addr <= 0x3fff ==> new.rom_bank == nonzero_bank((old.rom_bank % 256 + (data
                    % 2) * 256) % old.max_rom as int)
    &&& 0x4000 <= addr <= 0x5fff ==> new.ram_bank == if old.max_ram > 0 {
                    (data as int % 16) % old.max_ram as int
            } else {
                    old.ram_bank as int
            }
    &&& 0xa000 <= addr <= 0xbfff ==> new.ram@ == if old.ram_enable && old.ram_bank * 0x2000 + (addr - 0xa000) < old.ram@.len() {
                    old.ram@.update(old.ram_bank * 0x2000 + (addr - 0xa000), data)
            } else {
                    old.ram@
            }
}

pub struct MBC5 {
    pub ram: Vec<u8>,
    pub rom_bank: u16,
    pub ram_bank: u8,
    pub ram_enable: bool,
    pub max_rom: u16,
    pub max_ram: u8,
}

impl MBC5 {
    pub open spec fn wf(&self) -> bool {
        self.max_rom > 0 && self.max_rom <= 0x200 && self.rom_bank < 0x200 && self.ram_bank < 16
    }

    pub fn new(rom_size: usize, ram_size: usize) -> (r: Self)
        requires
            0x4000 <= rom_size <= 0x80_0000,
            ram_size <= 0x2_0000,
        ensures
            r.wf(),
            r.ram@.len() == ram_size,
            r.rom_bank == 1 && r.ram_bank == 0 && !r.ram_enable,
            r.max_rom == rom_size / 0x4000,
            r.max_ram == ram_size / 0x2000,
    {
        MBC5 {
            ram: vec![0u8; ram_size],
            rom_bank: 0x01,
            ram_bank: 0x00,
            ram_enable: false,
            max_rom: (rom_size / 0x4000) as u16,
            max_ram: (ram_size / 0x2000) as u8,
        }
    }

    /// ROM as MBC1; disabled RAM reads as 0xff.
    pub fn read(&self, rom: &Vec<u8>, addr: u16) -> (r: u8)
        requires
            self.wf(),
        ensures
            addr <= 0x3fff ==> r == rom_byte(rom@, addr as int),
            0x4000 <= addr <= 0x7fff ==> r == rom_byte(rom@, self.rom_bank * 0x4000 + (addr - 0x4000)),
            0xa000 <= addr <= 0xbfff ==> r == if self.ram_enable {
                ram_byte(self.ram@, self.ram_bank * 0x2000 + (addr - 0xa000))
            } else {
                0xff
            },
    {
        if addr <= 0x3fff {
            read_rom(rom, addr as usize)
        } else if addr <= 0x7fff {
            read_rom(rom, self.rom_bank as usize * 0x4000 + (addr as usize - 0x4000))
        } else if 0xa000 <= addr && addr <= 0xbfff {
            if self.ram_enable {
                super::read_ram(&self.ram, self.ram_bank as usize * 0x2000 + (addr as usize - 0xa000))
            } else {
                0xff
            }
        } else {
            0xff
        }
    }

    /// 0000-1FFF: RAM enable; 2000-2FFF: low eight bank bits; 3000-3FFF:
    /// bank bit 8; 4000-5FFF: RAM bank; A000-BFFF: RAM.
    pub fn write(&mut self, addr: u16, data: u8)
        requires
            old(self).wf(),
        ensures
            final(self).wf(),
            written(*old(self), *final(self), addr, data),
    {
        proof {
            lemma_u8_bits();
        }
        if addr <= 0x1fff {
            self.ram_enable = (self.max_ram > 0) && (data & 0x0f == 0x0a);
        } else if addr <= 0x2fff {
            let bank = ((self.rom_bank / 256) * 256 + data as u16) % self.max_rom;
            self.rom_bank = if bank == 0 {
                1
            } else {
                bank
            };
        } else if addr <= 0x3fff {
            let bank = (self.rom_bank % 256 + (data % 2) as u16 * 256) % self.max_rom;
            self.rom_bank = if bank == 0 {
                1
            } else {
                bank
            };
        } else if addr <= 0x5fff {
            if self.max_ram > 0 {
                proof {
                    vstd::arithmetic::div_mod::lemma_mod_decreases(
                        (data & 0x0f) as nat,
                        self.max_ram as nat,
                    );
                }
                self.ram_bank = (data & 0x0f) % self.max_ram;
            }
        } else if 0xa000 <= addr && addr <= 0xbfff {
            if self.ram_enable {
                let i = self.ram_bank as usize * 0x2000 + (addr as usize - 0xa000);
                if i < self.ram.len() {
                    self.ram.set(i, data);
                }
            }
        }
    }

    /// The battery-backed RAM, if the cartridge has any.
    pub fn get_ram(&self) -> (r: Option<&Vec<u8>>)
        ensures
            r is Some <==> self.ram@.len() > 0,
            r matches Some(v) ==> v@ == self.ram@,
    {
        if self.ram.len() > 0 {
            Some(&self.ram)
        } else {
            None
        }
    }
}

} // verus!
