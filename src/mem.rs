//! Work RAM (with its echo), the plain I/O port bytes and high RAM.
use vstd::prelude::*;

verus! {

/// Size of one work RAM bank.
pub const WRAM_BANK_SIZE: usize = 0x1000;

/// Number of switchable work RAM banks (D000-DFFF).
pub const WRAM_BANKS: usize = 7;

/// Whether `addr` is served by this memory: work RAM, its echo, the I/O
/// port bytes or high RAM.
pub open spec fn in_memory(addr: u16) -> bool {
    (0xc000 <= addr <= 0xfdff) || (0xff00 <= addr <= 0xfffe)
}

pub struct Memory {
    pub work_ram0: Vec<u8>,
    /// The seven switchable banks, one after the other.
    pub work_ram1: Vec<u8>,
    pub io_ports: Vec<u8>,
    pub high_ram: Vec<u8>,
    pub wram_bank: usize,
    pub cgb: bool,
}

impl Memory {
    pub open spec fn wf(&self) -> bool {
        &&& self.work_ram0@.len() == WRAM_BANK_SIZE
        &&& self.work_ram1@.len() == WRAM_BANK_SIZE * WRAM_BANKS
        &&& self.io_ports@.len() == 0x80
        &&& self.high_ram@.len() == 0x7f
        &&& self.wram_bank < WRAM_BANKS
    }

    /// The storage cell that an address designates: (area, index). The echo
    /// range E000-FDFF designates the same cells as C000-DDFF.
    pub open spec fn cell(&self, addr: u16) -> (int, int) {
        if 0xc000 <= addr <= 0xcfff {
            (0, addr - 0xc000)
        } else if 0xd000 <= addr <= 0xdfff {
            (1, self.wram_bank * WRAM_BANK_SIZE + (addr - 0xd000))
        } else if 0xe000 <= addr <= 0xefff {
            (0, addr - 0xe000)
        } else if 0xf000 <= addr <= 0xfdff {
            (1, self.wram_bank * WRAM_BANK_SIZE + (addr - 0xf000))
        } else if 0xff00 <= addr <= 0xff7f {
            (2, addr - 0xff00)
        } else {
            (3, addr - 0xff80)
        }
    }

    /// The byte stored in a cell.
    pub open spec fn at(&self, c: (int, int)) -> u8 {
        if c.0 == 0 {
            self.work_ram0@[c.1]
        } else if c.0 == 1 {
            self.work_ram1@[c.1]
        } else if c.0 == 2 {
            self.io_ports@[c.1]
        } else {
            self.high_ram@[c.1]
        }
    }

    /// The byte that `read(addr)` returns.
    pub open spec fn byte(&self, addr: u16) -> u8 {
        self.at(self.cell(addr))
    }

    /// Zeroed memory with bank 1 mapped at D000; bank switching is a CGB feature.
    pub fn new(cgb: bool) -> (r: Self)
        ensures
            r.wf(),
            r.wram_bank == 0,
            r.cgb == cgb,
            forall|a: u16| in_memory(a) ==> #[trigger] r.byte(a) == 0,
    {
        Memory {
            work_ram0: vec![0u8; WRAM_BANK_SIZE],
            work_ram1: vec![0u8; WRAM_BANK_SIZE * WRAM_BANKS],
            io_ports: vec![0u8; 0x80],
            high_ram: vec![0u8; 0x7f],
            wram_bank: 0,
            cgb,
        }
    }

    pub fn read(&self, addr: u16) -> (r: u8)
        requires
            self.wf(),
            in_memory(addr),
        ensures
            r == self.byte(addr),
    {
        let a = addr as usize;
        if a <= 0xcfff {
            self.work_ram0[a - 0xc000]
        } else if a <= 0xdfff {
            self.work_ram1[self.wram_bank * WRAM_BANK_SIZE + (a - 0xd000)]
        } else if a <= 0xefff {
            self.work_ram0[a - 0xe000]
        } else if a <= 0xfdff {
            self.work_ram1[self.wram_bank * WRAM_BANK_SIZE + (a - 0xf000)]
        } else if a <= 0xff7f {
            self.io_ports[a - 0xff00]
        } else {
            self.high_ram[a - 0xff80]
        }
    }

    /// Stores `data` in the cell of `addr`; every other cell keeps its byte.
    pub fn write(&mut self, addr: u16, data: u8)
        requires
            old(self).wf(),
            in_memory(addr),
        ensures
            final(self).wf(),
            final(self).wram_bank == old(self).wram_bank,
            final(self).cgb == old(self).cgb,
            forall|a: u16|
                in_memory(a) ==> #[trigger] final(self).byte(a) == if old(self).cell(a) == old(self).cell(addr) {
                    data
                } else {
                    old(self).byte(a)
                },
    {
        let a = addr as usize;
        let base = self.wram_bank * WRAM_BANK_SIZE;
        if a <= 0xcfff {
            self.work_ram0[a - 0xc000] = data;
        } else if a <= 0xdfff {
            self.work_ram1[base + (a - 0xd000)] = data;
        } else if a <= 0xefff {
            self.work_ram0[a - 0xe000] = data;
        } else if a <= 0xfdff {
            self.work_ram1[base + (a - 0xf000)] = data;
        } else if a <= 0xff7f {
            self.io_ports[a - 0xff00] = data;
        } else {
            self.high_ram[a - 0xff80] = data;
        }
    }

    /// SVBK as read: the bank number (1-7) with the unused bits set.
    pub fn wram_bank(&self) -> (r: u8)
        requires
            self.wf(),
        ensures
            r == (self.wram_bank + 1) as u8 | 0xf8,
    {
        (self.wram_bank as u8 + 1) | 0xf8
    }

    /// Selects the bank at D000 (0 and 1 both select bank 1); ignored on DMG.
    pub fn switch_wram_bank(&mut self, data: u8)
        requires
            old(self).wf(),
        ensures
            final(self).wf(),
            final(self).work_ram0 == old(self).work_ram0,
            final(self).work_ram1 == old(self).work_ram1,
            final(self).io_ports == old(self).io_ports,
            final(self).high_ram == old(self).high_ram,
            final(self).cgb == old(self).cgb,
            final(self).wram_bank == if old(self).cgb {
                if data % 8 == 0 {
                    0
                } else {
                    data % 8 - 1
                }
            } else {
                old(self).wram_bank as int
            },
    {
        if self.cgb {
            let n = data % 8;
            self.wram_bank = if n == 0 {
                0
            } else {
                (n - 1) as usize
            };
        }
    }
}

/// Reading an address of the echo range gives the byte 0x2000 below it.
pub proof fn lemma_echo_ram(m: &Memory, addr: u16)
    requires
        m.wf(),
        0xe000 <= addr <= 0xfdff,
    ensures
        m.byte(addr) == m.byte((addr - 0x2000) as u16),
{
}

} // verus!
