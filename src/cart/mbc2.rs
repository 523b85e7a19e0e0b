//! MBC2: up to 16 ROM banks and 512 half-bytes of built-in RAM.
use vstd::prelude::*;
use super::{rom_byte, read_rom};
use crate::bits::lemma_u8_bits;

verus! {

/// What a write to the controller does (the contract of `write`).
pub open spec fn written(old: MBC2, new: MBC2, addr: u16, data: u8) -> bool {
    &&& new.max_rom == old.max_rom
    &&& addr <= 0x1fff && (addr / 256) % 2 == 0 ==> new.ram_enable == (data % 16 == 0x0a)
                    && new.rom_bank == old.rom_bank
    &&& 0x2000 <= addr <= 0x3fff && (addr / 256) % 2 == 1 ==> new.rom_bank == {
                    let b = (data as int % 16) % old.max_rom as int;
                    if b == 0 {
                        1
                    } else {
                        b
                    }
            } && new.ram_enable == old.ram_enable
    &&& 0xa000 <= addr <= 0xa1ff ==> new.ram@ == if old.ram_enable {
                    old.ram@.update(addr - 0xa000, data % 16)
            } else {
                    old.ram@
            }
    &&& !(0xa000 <= addr <= 0xa1ff) ==> new.ram == old.ram
}

pub struct MBC2 {
    pub ram: Vec<u8>,
    pub rom_bank: u8,
    pub ram_enable: bool,
    pub max_rom: u16,
}

impl MBC2 {
    pub open spec fn wf(&self) -> bool {
        self.max_rom > 0 && self.ram@.len() == 0x200 && self.rom_bank < 0x10
    }

    pub fn new(rom_size: usize) -> (r: Self)
        requires
            0x4000 <= rom_size <= 0x80_0000,
        ensures
            r.wf(),
            r.rom_bank == 1 && !r.ram_enable,
            r.max_rom == rom_size / 0x4000,
    {
        MBC2 {
            ram: vec![0u8; 0x200],
            rom_bank: 0x01,
            ram_enable: false,
            max_rom: (rom_size / 0x4000) as u16,
        }
    }

    /// ROM as MBC1; A000-A1FF holds the RAM's low nibbles while enabled.
    pub fn read(&self, rom: &Vec<u8>, addr: u16) -> (r: u8)
        requires
            self.wf(),
        ensures
            addr <= 0x3fff ==> r == rom_byte(rom@, addr as int),
            0x4000 <= addr <= 0x7fff ==> r == rom_byte(rom@, self.rom_bank * 0x4000 + (addr - 0x4000)),
            0xa000 <= addr <= 0xa1ff ==> r == if self.ram_enable {
                self.ram@[addr - 0xa000] % 16
            } else {
                0xff
            },
            0x8000 <= addr <= 0x9fff || 0xa200 <= addr ==> r == 0xff,
    {
        proof {
            lemma_u8_bits();
        }
        if addr <= 0x3fff {
            read_rom(rom, addr as usize)
        } else if addr <= 0x7fff {
            read_rom(rom, self.rom_bank as usize * 0x4000 + (addr as usize - 0x4000))
        } else if 0xa000 <= addr && addr <= 0xa1ff {
            if self.ram_enable {
                self.ram[addr as usize - 0xa000] & 0x0f
            } else {
                0xff
            }
        } else {
            0xff
        }
    }

    /// 0000-1FFF with address bit 8 clear: RAM enable; 2000-3FFF with bit 8
    /// set: ROM bank (0 selects 1); A000-A1FF: RAM nibbles.
    pub fn write(&mut self, addr: u16, data: u8)
        requires
            old(self).wf(),
        ensures
            final(self).wf(),
            written(*old(self), *final(self), addr, data),
    {
        proof {
            lemma_u8_bits();
            crate::bits::lemma_u16_bits();
        }
        if addr <= 0x1fff {
            if addr & 0x0100 == 0 {
                self.ram_enable = data & 0x0f == 0x0a;
            }
        } else if addr <= 0x3fff {
            if addr & 0x0100 != 0 {
                proof {
                    vstd::arithmetic::div_mod::lemma_mod_decreases(
                        (data & 0x0f) as nat,
                        self.max_rom as nat,
                    );
                }
                let bank = ((data & 0x0f) as u16 % self.max_rom) as u8;
                self.rom_bank = if bank == 0 {
                    1
                } else {
                    bank
                };
            }
        } else if 0xa000 <= addr && addr <= 0xa1ff {
            if self.ram_enable {
                self.ram.set(addr as usize - 0xa000, data & 0x0f);
            }
        }
    }

    /// The built-in RAM.
    pub fn get_ram(&self) -> (r: Option<&Vec<u8>>)
        ensures
            r matches Some(v) && v@ == self.ram@,
    {
        Some(&self.ram)
    }
}

} // verus!
