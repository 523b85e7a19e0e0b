//! MBC1: 5-bit low ROM bank, 2-bit upper field for ROM or RAM banks.
use vstd::prelude::*;
use super::{rom_byte, ram_byte, read_rom};
use crate::bits::lemma_u8_bits;

verus! {

#[derive(Clone, Copy, Debug, PartialEq, Eq, Structural)]
pub enum BankMode {
    Rom,
    Ram,
}

/// Banks 0x00, 0x20, 0x40 and 0x60 cannot be mapped at 4000; the next one is.
pub open spec fn mbc1_map(n: u8) -> u8 {
    if n == 0x00 || n == 0x20 || n == 0x40 || n == 0x60 {
        (n + 1) as u8
    } else {
        n
    }
}

fn map_rom_bank(n: u8) -> (r: u8)
    requires
        n < 0x80,
    ensures
        r == mbc1_map(n),
        r < 0x80,
{
    if n == 0x00 || n == 0x20 || n == 0x40 || n == 0x60 {
        n + 1
    } else {
        n
    }
}

/// What a write to the controller does (the contract of `write`).
pub open spec fn written(old: MBC1, new: MBC1, addr: u16, data: u8) -> bool {
    &&& new.max_rom == old.max_rom
    &&& new.ram@.len() == old.ram@.len()
    &&& addr <= 0x1fff ==> new.ram_enable == (old.ram@.len() > 0 && data % 16
                    == 0x0a) && new.rom_bank == old.rom_bank
    &&& 0x2000 <= addr <= 0x3fff ==> new.rom_bank == mbc1_map(
                    (((old.rom_bank / 32) % 4 * 32 + data % 32) % old.max_rom as int) as u8
            )
    &&& 0x4000 <= addr <= 0x5fff && old.mode == BankMode::Rom ==> new.rom_bank
                    == mbc1_map(
                    ((old.rom_bank % 32 + (data % 4) * 32) % old.max_rom as int) as u8
            )
    &&& 0x4000 <= addr <= 0x5fff && old.mode == BankMode::Ram ==> new.ram_bank
                    == data % 4
    &&& 0x6000 <= addr <= 0x7fff ==> new.mode == if data % 2 == 1 {
                    BankMode::Ram
            } else {
                    BankMode::Rom
            }
    &&& 0xa000 <= addr <= 0xbfff ==> new.ram@ == if old.ram_enable && old.ram_bank * 0x2000 + (addr - 0xa000) < old.ram@.len() {
                    old.ram@.update(old.ram_bank * 0x2000 + (addr - 0xa000), data)
            } else {
                    old.ram@
            }
}

pub struct MBC1 {
    pub ram: Vec<u8>,
    pub rom_bank: u8,
    pub ram_bank: u8,
    pub ram_enable: bool,
    pub mode: BankMode,
    pub max_rom: u16,
}

impl MBC1 {
    pub open spec fn wf(&self) -> bool {
        self.max_rom > 0 && self.rom_bank < 0x80 && self.ram_bank < 4
    }

    pub fn new(rom_size: usize, ram_size: usize) -> (r: Self)
        requires
            0x4000 <= rom_size <= 0x80_0000,
        ensures
            r.wf(),
            r.ram@.len() == ram_size,
            r.rom_bank == 1 && r.ram_bank == 0 && !r.ram_enable && r.mode == BankMode::Rom,
            r.max_rom == rom_size / 0x4000,
    {
        MBC1 {
            ram: vec![0u8; ram_size],
            rom_bank: 0x01,
            ram_bank: 0x00,
            ram_enable: false,
            mode: BankMode::Rom,
            max_rom: (rom_size / 0x4000) as u16,
        }
    }

    /// Bank 0 at 0000-3FFF, the selected bank at 4000-7FFF, and the selected
    /// RAM bank at A000-BFFF while RAM is enabled.
    pub fn read(&self, rom: &Vec<u8>, addr: u16) -> (r: u8)
        requires
            self.wf(),
        ensures
            addr <= 0x3fff ==> r == rom_byte(rom@, addr as int),
            0x4000 <= addr <= 0x7fff ==> r == rom_byte(rom@, self.rom_bank * 0x4000 + (addr - 0x4000)),
            0xa000 <= addr <= 0xbfff ==> r == if self.ram_enable {
                ram_byte(self.ram@, self.ram_bank * 0x2000 + (addr - 0xa000))
            } else {
                0xff
            },
    {
        if addr <= 0x3fff {
            read_rom(rom, addr as usize)
        } else if addr <= 0x7fff {
            read_rom(rom, self.rom_bank as usize * 0x4000 + (addr as usize - 0x4000))
        } else if 0xa000 <= addr && addr <= 0xbfff {
            if self.ram_enable {
                super::read_ram(&self.ram, self.ram_bank as usize * 0x2000 + (addr as usize - 0xa000))
            } else {
                0xff
            }
        } else {
            0xff
        }
    }

    /// 0000-1FFF: RAM enable (low nibble 0xA, and the cartridge has RAM);
    /// 2000-3FFF: low five bank bits; 4000-5FFF: upper two bits of the ROM
    /// bank or the RAM bank, by mode; 6000-7FFF: mode; A000-BFFF: RAM.
    pub fn write(&mut self, addr: u16, data: u8)
        requires
            old(self).wf(),
        ensures
            final(self).wf(),
            written(*old(self), *final(self), addr, data),
    {
        proof {
            lemma_u8_bits();
        }
        if addr <= 0x1fff {
            self.ram_enable = self.ram.len() > 0 && (data & 0x0f == 0x0a);
        } else if addr <= 0x3fff {
            let combined = (self.rom_bank / 32) % 4 * 32 + data % 32;
            proof {
                vstd::arithmetic::div_mod::lemma_mod_decreases(combined as nat, self.max_rom as nat);
            }
            let bank = (combined as u16 % self.max_rom) as u8;
            self.rom_bank = map_rom_bank(bank);
        } else if addr <= 0x5fff {
            match self.mode {
                BankMode::Rom => {
                    let combined = self.rom_bank % 32 + (data % 4) * 32;
                    proof {
                        vstd::arithmetic::div_mod::lemma_mod_decreases(
                            combined as nat,
                            self.max_rom as nat,
                        );
                    }
                    let bank = (combined as u16 % self.max_rom) as u8;
                    self.rom_bank = map_rom_bank(bank);
                },
                BankMode::Ram => {
                    self.ram_bank = data & 0x03;
                },
            }
        } else if addr <= 0x7fff {
            if data & 0x01 == 1 {
                self.rom_bank = map_rom_bank(self.rom_bank % 0x20);
                self.mode = BankMode::Ram;
            } else {
                self.ram_bank = 0x00;
                self.mode = BankMode::Rom;
            }
        } else if 0xa000 <= addr && addr <= 0xbfff {
            if self.ram_enable {
                let i = self.ram_bank as usize * 0x2000 + (addr as usize - 0xa000);
                if i < self.ram.len() {
                    self.ram.set(i, data);
                }
            }
        }
    }

    /// The battery-backed RAM, if the cartridge has any.
    pub fn get_ram(&self) -> (r: Option<&Vec<u8>>)
        ensures
            r is Some <==> self.ram@.len() > 0,
            r matches Some(v) ==> v@ == self.ram@,
    {
        if self.ram.len() > 0 {
            Some(&self.ram)
        } else {
            None
        }
    }
}

} // verus!
