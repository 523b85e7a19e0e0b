//! The LR35902 CPU: registers, interrupt servicing, HALT and the instruction set.
use vstd::prelude::*;
use crate::bus::Bus;
use crate::interrupt::{lemma_pending_has_lowest, lowest_pending};
use reg::{Reg, flag_of, pair};

pub mod alu;
pub mod ins;
pub mod reg;

verus! {

/// Why the CPU stopped.
#[derive(Clone, Copy, Debug, PartialEq, Eq, Structural)]
pub enum CpuError {
    /// One of the eleven opcodes that the LR35902 does not define.
    InvalidOpcode(u8),
}

/// The opcodes that the LR35902 does not define.
pub open spec fn illegal(op: u8) -> bool {
    op == 0xd3 || op == 0xdb || op == 0xdd || op == 0xe3 || op == 0xe4 || op == 0xeb || op == 0xec
        || op == 0xed || op == 0xf4 || op == 0xfc || op == 0xfd
}

/// The bus stays usable, keeps its cartridge kind, and was charged at most
/// `most` T-cycles.
pub open spec fn bus_spent(before: Bus, after: Bus, most: int) -> bool {
    &&& after.wf()
    &&& after.cart.cgb == before.cart.cgb
    &&& before.total@ <= after.total@ <= before.total@ + most
    &&& before.bus_samples() <= after.bus_samples()
    &&& after.cart.rom == before.cart.rom
}

/// The little-endian word at `addr` where both bytes follow from ROM or RAM alone.
pub open spec fn word_at(io: Bus, addr: u16) -> Option<u16> {
    match (io.known_byte(addr), io.known_byte(((addr + 1) % 0x10000) as u16)) {
        (Some(lo), Some(hi)) => Some((lo + 256 * hi) as u16),
        _ => None,
    }
}

/// Work RAM, its echo, or high RAM: memory that holds what is written.
pub open spec fn ram_addr(a: u16) -> bool {
    (0xc000 <= a <= 0xfdff) || (0xff80 <= a <= 0xfffe)
}

pub struct Cpu {
    pub reg: Reg,
    pub interrupt_master_enable: bool,
    pub interrupt_enable_delay: bool,
    pub halt: bool,
    pub cgb: bool,
}

impl Cpu {
    pub fn new(cgb: bool) -> (r: Self)
        ensures
            r.cgb == cgb,
            r.interrupt_master_enable && !r.interrupt_enable_delay && !r.halt,
    {
        Cpu {
            reg: Reg::new(),
            interrupt_master_enable: true,
            interrupt_enable_delay: false,
            halt: false,
            cgb,
        }
    }

    /// The state after the boot ROM: AF=01B0 (A=11 on CGB), BC=0013,
    /// DE=00D8, HL=014D, SP=FFFE, PC=0100, interrupts enabled, not halted.
    pub fn reset(&mut self)
        ensures
            final(self).reg.a == if old(self).cgb {
                0x11u8
            } else {
                0x01u8
            },
            final(self).reg.f == flag_of(0xb0),
            final(self).reg.bc_spec() == 0x0013 && final(self).reg.de_spec() == 0x00d8,
            final(self).reg.hl_spec() == 0x014d,
            final(self).reg.sp == 0xfffe && final(self).reg.pc == 0x0100,
            final(self).interrupt_master_enable && !final(self).halt,
            final(self).cgb == old(self).cgb,
    {
        self.reg.set_af(0x01b0);
        self.reg.set_bc(0x0013);
        self.reg.set_de(0x00d8);
        self.reg.set_hl(0x014d);
        self.reg.sp = 0xfffe;
        self.reg.pc = 0x0100;
        if self.cgb {
            self.reg.a = 0x11;
        }
        self.interrupt_master_enable = true;
        self.halt = false;
    }

    /// One step: apply a pending EI, service an interrupt, then either idle
    /// one bus step while halted (leaving HALT once an interrupt is pending,
    /// whatever IME) or run one instruction. Returns the T-cycles spent.
    /// HALT with IME clear and an interrupt pending simply leaves HALT: the
    /// hardware's failure to advance PC there is not reproduced.
    #[verifier::rlimit(80)]
    pub fn step(&mut self, io: &mut Bus) -> (r: Result<u32, CpuError>)
        requires
            old(io).wf(),
        ensures
            bus_spent(*old(io), *final(io), 40),
            final(self).cgb == old(self).cgb,
            r matches Err(CpuError::InvalidOpcode(op)) ==> illegal(op),
            r matches Err(CpuError::InvalidOpcode(op)) ==> (final(io).known_byte(
                ((final(self).reg.pc + 0xffff) % 0x10000) as u16,
            ) matches Some(b) ==> b == op),
            !old(self).halt && !((old(self).interrupt_master_enable || old(self).interrupt_enable_delay)
                && old(io).interrupt_handler.pending()) ==> (old(io).known_byte(old(self).reg.pc) matches Some(
                op,
            ) ==> (r is Err <==> illegal(op)) && (r is Err ==> r == Err::<u32, CpuError>(
                CpuError::InvalidOpcode(op),
            ))),
            r matches Ok(c) ==> 2 <= c <= 40 && c == final(io).total@ - old(io).total@,
            r is Ok ==> final(io).bus_samples() > old(io).bus_samples(),
            old(self).halt ==> final(io).total@ == old(io).total@ + old(io).tcycles_per_step(),
            old(self).halt ==> final(self).interrupt_master_enable == (old(self).interrupt_master_enable
                || old(self).interrupt_enable_delay) && !final(self).interrupt_enable_delay,
            !old(self).halt && (old(self).interrupt_master_enable || old(self).interrupt_enable_delay)
                && old(io).interrupt_handler.pending() ==> (lowest_pending(
                old(io).interrupt_handler.ie_port & old(io).interrupt_handler.if_port,
            ) matches Some(n) ==> ({
                let op = crate::cart::rom_byte(old(io).cart.rom@, (0x40 + 8 * n) as int);
                (r is Err <==> illegal(op)) && (r is Err ==> r == Err::<u32, CpuError>(
                    CpuError::InvalidOpcode(op),
                ))
            })),
            old(self).halt ==> r is Ok && final(self).reg == old(self).reg && final(self).halt == !old(io).interrupt_handler.pending(),
    {
        if self.interrupt_enable_delay {
            self.interrupt_enable_delay = false;
            self.interrupt_master_enable = true;
        }
        let start = io.cycles();
        if !self.halt {
            self.handle_interrupts(io);
            let op = self.fetch_byte(io);
            if op != 0xcb {
                let res = self.dispatch_op(op, io);
                if let Err(e) = res {
                    return Err(e);
                }
            } else {
                let op = self.fetch_byte(io);
                self.dispatch_op_cb(op, io);
            }
        } else {
            if io.interrupt_handler.has_interrupts() {
                self.halt = false;
            }
            io.step();
        }
        proof {
            lemma_wrapping_diff(old(io).total@ as int, io.total@ as int);
        }
        Ok(io.cycles().wrapping_sub(start))
    }

    /// With IME set and an interrupt pending: clear IME, two idle steps,
    /// push PC and jump to the interrupt's vector.
    fn handle_interrupts(&mut self, io: &mut Bus)
        requires
            old(io).wf(),
        ensures
            bus_spent(*old(io), *final(io), 16),
            final(self).cgb == old(self).cgb,
            final(self).halt == old(self).halt,
            old(self).interrupt_master_enable && old(io).interrupt_handler.pending() ==> {
                &&& !final(self).interrupt_master_enable
                &&& lowest_pending(old(io).interrupt_handler.ie_port & old(io).interrupt_handler.if_port)
                    matches Some(n) && final(self).reg.pc == 0x40 + 8 * n
                &&& final(self).reg.sp == (old(self).reg.sp + 0x10000 - 2) % 0x10000
            },
            !(old(self).interrupt_master_enable && old(io).interrupt_handler.pending()) ==> *final(self)
                == *old(self) && *final(io) == *old(io),
    {
        proof {
            if self.interrupt_master_enable && io.interrupt_handler.pending() {
                lemma_pending_has_lowest(io.interrupt_handler);
            }
        }
        if self.interrupt_master_enable && io.interrupt_handler.has_interrupts() {
            if let Some(addr) = io.interrupt_handler.service_interrupt() {
                self.interrupt_master_enable = false;
                io.step();
                io.step();
                let pc = self.reg.pc;
                self.push(io, pc);
                self.reg.pc = addr;
            }
        }
    }

    fn read(&self, io: &mut Bus, addr: u16) -> (r: u8)
        requires
            old(io).wf(),
        ensures
            bus_spent(*old(io), *final(io), 4),
            final(io).total@ >= old(io).total@ + 2,
            final(io).bus_samples() >= old(io).bus_samples() + 1,
            final(io).cart == old(io).cart && final(io).mem == old(io).mem,
            old(io).known_byte(addr) matches Some(b) ==> r == b,
            final(io).speed_mode == old(io).speed_mode,
            final(io).prepare_speed_switch == old(io).prepare_speed_switch,
    {
        io.read(addr)
    }

    fn write(&self, io: &mut Bus, addr: u16, data: u8)
        requires
            old(io).wf(),
        ensures
            bus_spent(*old(io), *final(io), 4),
            ram_addr(addr) ==> final(io).mem.byte(addr) == data && final(io).cart == old(io).cart,
            ram_addr(addr) ==> final(io).mem.wram_bank == old(io).mem.wram_bank && forall|a: u16|
                ram_addr(a) && old(io).mem.cell(a) != old(io).mem.cell(addr) ==> #[trigger] final(io).mem.byte(a)
                    == old(io).mem.byte(a),
    {
        io.write(addr, data);
    }

    /// An idle machine cycle.
    fn internal(&self, io: &mut Bus)
        requires
            old(io).wf(),
        ensures
            bus_spent(*old(io), *final(io), 4),
            final(io).mem == old(io).mem && final(io).cart == old(io).cart,
            final(io).speed_mode == old(io).speed_mode,
            final(io).prepare_speed_switch == old(io).prepare_speed_switch,
    {
        io.step();
    }

    fn read_word(&self, io: &mut Bus, addr: u16) -> (r: u16)
        requires
            old(io).wf(),
        ensures
            bus_spent(*old(io), *final(io), 8),
            final(io).cart == old(io).cart && final(io).mem == old(io).mem,
            word_at(*old(io), addr) matches Some(w) ==> r == w,
    {
        let b0 = self.read(io, addr) as u16;
        let b1 = self.read(io, addr.wrapping_add(1)) as u16;
        b0 + b1 * 256
    }

    fn write_word(&mut self, io: &mut Bus, addr: u16, data: u16)
        requires
            old(io).wf(),
        ensures
            bus_spent(*old(io), *final(io), 8),
            *final(self) == *old(self),
    {
        self.write(io, addr, (data % 256) as u8);
        self.write(io, addr.wrapping_add(1), (data / 256) as u8);
    }

    fn read_io(&self, io: &mut Bus, port: u8) -> (r: u8)
        requires
            old(io).wf(),
        ensures
            bus_spent(*old(io), *final(io), 4),
    {
        self.read(io, 0xff00 + port as u16)
    }

    fn write_io(&mut self, io: &mut Bus, port: u8, data: u8)
        requires
            old(io).wf(),
        ensures
            bus_spent(*old(io), *final(io), 4),
            *final(self) == *old(self),
    {
        self.write(io, 0xff00 + port as u16, data);
    }

    /// Pushes a word: high byte at SP-1, low byte at SP-2; SP drops by 2.
    fn push(&mut self, io: &mut Bus, word: u16)
        requires
            old(io).wf(),
        ensures
            bus_spent(*old(io), *final(io), 8),
            *final(self) == (Cpu {
                reg: Reg { sp: ((old(self).reg.sp - 2 + 0x10000) % 0x10000) as u16, ..old(self).reg },
                ..*old(self)
            }),
            ({
                let hi = ((old(self).reg.sp + 0xffff) % 0x10000) as u16;
                let lo = ((old(self).reg.sp + 0xfffe) % 0x10000) as u16;
                ram_addr(hi) && ram_addr(lo) ==> final(io).mem.byte(hi) == word / 256 && final(io).mem.byte(lo)
                    == word % 256
            }),
    {
        let sp = self.reg.sp;
        self.write(io, sp.wrapping_sub(1), (word / 256) as u8);
        self.write(io, sp.wrapping_sub(2), (word % 256) as u8);
        self.reg.sp = sp.wrapping_sub(2);
    }

    /// Pops a word; SP rises by 2.
    fn pop(&mut self, io: &mut Bus) -> (r: u16)
        requires
            old(io).wf(),
        ensures
            bus_spent(*old(io), *final(io), 8),
            word_at(*old(io), old(self).reg.sp) matches Some(w) ==> r == w,
            *final(self) == (Cpu {
                reg: Reg { sp: ((old(self).reg.sp + 2) % 0x10000) as u16, ..old(self).reg },
                ..*old(self)
            }),
    {
        let word = self.read_word(io, self.reg.sp);
        self.reg.sp = self.reg.sp.wrapping_add(2);
        word
    }

    fn fetch_byte(&mut self, io: &mut Bus) -> (r: u8)
        requires
            old(io).wf(),
        ensures
            bus_spent(*old(io), *final(io), 4),
            final(io).total@ >= old(io).total@ + 2,
            final(io).bus_samples() >= old(io).bus_samples() + 1,
            final(io).cart == old(io).cart && final(io).mem == old(io).mem,
            old(io).known_byte(old(self).reg.pc) matches Some(b) ==> r == b,
            final(io).speed_mode == old(io).speed_mode,
            final(io).prepare_speed_switch == old(io).prepare_speed_switch,
            *final(self) == (Cpu {
                reg: Reg { pc: ((old(self).reg.pc + 1) % 0x10000) as u16, ..old(self).reg },
                ..*old(self)
            }),
    {
        let byte = self.read(io, self.reg.pc);
        self.reg.pc = self.reg.pc.wrapping_add(1);
        byte
    }

    fn fetch_word(&mut self, io: &mut Bus) -> (r: u16)
        requires
            old(io).wf(),
        ensures
            bus_spent(*old(io), *final(io), 8),
            *final(self) == (Cpu {
                reg: Reg { pc: ((old(self).reg.pc + 2) % 0x10000) as u16, ..old(self).reg },
                ..*old(self)
            }),
    {
        let word = self.read_word(io, self.reg.pc);
        self.reg.pc = self.reg.pc.wrapping_add(2);
        word
    }
}

/// The difference of two counters kept modulo 2^32 is the difference of
/// the counts, when that is below 2^32.
proof fn lemma_wrapping_diff(a: int, b: int)
    requires
        0 <= a <= b < a + 0x1_0000_0000,
    ensures
        ((b % 0x1_0000_0000) as u32).wrapping_sub((a % 0x1_0000_0000) as u32) == b - a,
{
    let m: int = 0x1_0000_0000;
    vstd::arithmetic::div_mod::lemma_fundamental_div_mod(a, m);
    vstd::arithmetic::div_mod::lemma_fundamental_div_mod(b, m);
    assert(b / m == a / m || b / m == a / m + 1) by (nonlinear_arith)
        requires
            a <= b < a + m,
            m > 0,
            a == m * (a / m) + a % m,
            b == m * (b / m) + b % m,
            0 <= a % m < m,
            0 <= b % m < m,
    ;
}

impl Reg {
    pub open spec fn bc_spec(&self) -> u16 {
        pair(self.b, self.c)
    }

    pub open spec fn de_spec(&self) -> u16 {
        pair(self.d, self.e)
    }

    pub open spec fn hl_spec(&self) -> u16 {
        pair(self.h, self.l)
    }
}

} // verus!
