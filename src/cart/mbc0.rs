//! A plain 32 KiB ROM without a bank controller.
use vstd::prelude::*;
use super::rom_byte;

verus! {

pub struct MBC0 {}

impl MBC0 {
    pub fn new() -> (r: Self) {
        MBC0 {}
    }

    /// ROM bytes at 0000-7FFF; nothing else is mapped.
    pub fn read(&self, rom: &Vec<u8>, addr: u16) -> (r: u8)
        ensures
            addr <= 0x7fff ==> r == rom_byte(rom@, addr as int),
            addr > 0x7fff ==> r == 0xff,
    {
        if addr <= 0x7fff {
            super::read_rom(rom, addr as usize)
        } else {
            0xff
        }
    }
}

} // verus!
