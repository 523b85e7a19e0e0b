//! The emulator as a whole: CPU and bus, driven a frame at a time.
use vstd::prelude::*;
use crate::bus::Bus;
use crate::cart::Cartridge;
use crate::cpu::{Cpu, CpuError};
use crate::cpu::reg::flag_of;
use crate::joypad::{JoypadState, no_keys};

verus! {

pub struct Gameboy {
    pub cpu: Cpu,
    pub bus: Bus,
}

impl Gameboy {
    pub open spec fn wf(&self) -> bool {
        self.bus.wf()
    }

    /// A machine with the cartridge inserted, in its post-boot state; no
    /// interrupt is requested yet (IF reads 0xe0).
    pub fn new(cart: Cartridge) -> (r: Self)
        requires
            cart.wf(),
        ensures
            r.wf(),
            r.cpu.cgb == cart.cgb && r.bus.cart.cgb == cart.cgb,
            r.cpu.reg.sp == 0xfffe && r.cpu.reg.pc == 0x0100,
            r.cpu.reg.a == if cart.cgb {
                0x11u8
            } else {
                0x01u8
            },
            r.cpu.reg.f == flag_of(0xb0),
            r.cpu.reg.bc_spec() == 0x0013 && r.cpu.reg.de_spec() == 0x00d8,
            r.cpu.reg.hl_spec() == 0x014d,
            r.cpu.interrupt_master_enable && !r.cpu.halt,
            r.bus.interrupt_handler.ie_port == 0 && r.bus.interrupt_handler.if_port == 0,
            r.bus.ppu.lcdc == 0x91,
            r.bus.cycles == 0,
    {
        let cgb = cart.cgb();
        let mut g = Gameboy { cpu: Cpu::new(cgb), bus: Bus::new(cart) };
        g.reset();
        g
    }

    /// Puts CPU and I/O back in the post-boot state.
    pub fn reset(&mut self)
        requires
            old(self).wf(),
        ensures
            final(self).wf(),
            final(self).cpu.cgb == old(self).cpu.cgb,
            final(self).bus.cart.cgb == old(self).bus.cart.cgb,
            final(self).cpu.reg.sp == 0xfffe && final(self).cpu.reg.pc == 0x0100,
            final(self).cpu.reg.a == if old(self).cpu.cgb {
                0x11u8
            } else {
                0x01u8
            },
            final(self).cpu.reg.f == flag_of(0xb0),
            final(self).cpu.reg.bc_spec() == 0x0013 && final(self).cpu.reg.de_spec() == 0x00d8,
            final(self).cpu.reg.hl_spec() == 0x014d,
            final(self).cpu.interrupt_master_enable && !final(self).cpu.halt,
            final(self).bus.interrupt_handler.ie_port == 0 && final(self).bus.interrupt_handler.if_port == 0,
            final(self).bus.ppu.lcdc == 0x91,
            final(self).bus.cycles == 0,
    {
        self.cpu.reset();
        self.bus.reset();
    }

    /// Latches the keys, then runs instructions until at least `max_cycles`
    /// T-cycles have passed (each instruction takes 2 to 40). Stops early,
    /// with the error, on an undefined opcode.
    pub fn emulate(&mut self, max_cycles: u32, states: JoypadState) -> (r: Result<(), CpuError>)
        requires
            old(self).wf(),
        ensures
            final(self).wf(),
            final(self).cpu.cgb == old(self).cpu.cgb,
            final(self).bus.cart.cgb == old(self).bus.cart.cgb,
            max_cycles == 0 ==> r is Ok && final(self).cpu == old(self).cpu,
            r matches Err(CpuError::InvalidOpcode(op)) ==> crate::cpu::illegal(op),
            r matches Err(CpuError::InvalidOpcode(op)) ==> (final(self).bus.known_byte(
                ((final(self).cpu.reg.pc + 0xffff) % 0x10000) as u16,
            ) matches Some(b) ==> b == op),
            max_cycles == 0 ==> final(self).bus.interrupt_handler.ie_port == old(self).bus.interrupt_handler.ie_port,
            max_cycles == 0 && no_keys(states) ==> final(self).bus.interrupt_handler == old(self).bus.interrupt_handler,
            r is Ok ==> final(self).bus.total@ >= old(self).bus.total@ + max_cycles,
            r is Ok && max_cycles > 0 ==> final(self).bus.bus_samples() > old(self).bus.bus_samples(),
    {
        self.bus.set_input(states);
        let mut current: u64 = 0;
        while current < max_cycles as u64
            invariant
                self.wf(),
                self.cpu.cgb == old(self).cpu.cgb,
                self.bus.cart.cgb == old(self).bus.cart.cgb,
                max_cycles == 0 ==> self.cpu == old(self).cpu,
                max_cycles == 0 ==> self.bus.interrupt_handler.ie_port == old(self).bus.interrupt_handler.ie_port,
                max_cycles == 0 && no_keys(states) ==> self.bus.interrupt_handler == old(self).bus.interrupt_handler,
                current <= max_cycles,
                self.bus.total@ >= old(self).bus.total@ + current,
                self.bus.bus_samples() >= old(self).bus.bus_samples(),
                current > 0 ==> self.bus.bus_samples() > old(self).bus.bus_samples(),
            decreases max_cycles as int - current as int,
        {
            let spent = match self.cpu.step(&mut self.bus) {
                Ok(c) => c,
                Err(e) => {
                    return Err(e);
                },
            };
            let next = current + spent as u64;
            current = if next > max_cycles as u64 {
                max_cycles as u64
            } else {
                next
            };
        }
        Ok(())
    }

    /// The cartridge RAM to save, if the cartridge has any.
    pub fn save_data(&self) -> (r: Option<&Vec<u8>>)
        requires
            self.wf(),
        ensures
            r is Some <==> self.bus.cart.mbc.ram_seq().len() > 0,
            r matches Some(v) ==> v@ == self.bus.cart.mbc.ram_seq(),
    {
        self.bus.cart.ram()
    }

    /// Hands out the mixed `(left, right)` samples produced since the last call.
    pub fn apu_output(&mut self) -> (r: Vec<(u8, u8)>)
        requires
            old(self).wf(),
        ensures
            final(self).wf(),
            r@ == old(self).bus.apu.samples@,
            final(self).bus.apu.samples@.len() == 0,
            final(self).bus.bus_samples() == old(self).bus.bus_samples(),
    {
        self.bus.apu.output()
    }

    /// The last complete frame, RGB24.
    pub fn get_frame_buffer(&self) -> (r: &Vec<u8>)
        requires
            self.wf(),
        ensures
            r@ == self.bus.ppu.displayed(),
    {
        self.bus.ppu.get_frame_buffer()
    }
}

/// The frame buffer does not change without emulation: two reads of the
/// same machine give the same bytes.
pub proof fn lemma_frame_buffer_stable(g: &Gameboy, first: Seq<u8>, second: Seq<u8>)
    requires
        g.wf(),
        first == g.bus.ppu.displayed(),
        second == g.bus.ppu.displayed(),
    ensures
        first == second,
{
}

} // verus!
