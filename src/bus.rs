//! The memory bus: the address map, I/O dispatch, OAM DMA, HDMA, the CGB
//! speed switch and the per-access clocking of the peripherals.
use vstd::prelude::*;
use crate::apu::Apu;
use crate::cart::Cartridge;
use crate::interrupt::{InterruptHandler, IE_PORT, IF_PORT};
use crate::joypad::{Joypad, JoypadState, no_keys};
use crate::mem::{Memory, in_memory};
use crate::ppu::{LcdMode, Ppu};
use crate::timer::Timer;
use crate::AUDIO_FREQ_DIVIDER;
use dma::Dma;
use hdma::Hdma;

pub mod dma;
pub mod hdma;

verus! {

/// CPU speed: normal, or CGB double speed.
#[derive(Clone, Copy, Debug, PartialEq, Eq, Structural)]
pub enum SpeedMode {
    Normal,
    Double,
}

/// The I/O writes that set up the post-boot state, in order.
pub open spec fn init_port(i: int) -> (u16, u8) {
    if i == 0 {
        (0xff05, 0x00)
    } else if i == 1 {
        (0xff06, 0x00)
    } else if i == 2 {
        (0xff07, 0x00)
    } else if i == 3 {
        (0xff10, 0x80)
    } else if i == 4 {
        (0xff11, 0xbf)
    } else if i == 5 {
        (0xff12, 0xf3)
    } else if i == 6 {
        (0xff14, 0xbf)
    } else if i == 7 {
        (0xff16, 0x3f)
    } else if i == 8 {
        (0xff17, 0x00)
    } else if i == 9 {
        (0xff19, 0xbf)
    } else if i == 10 {
        (0xff1a, 0x7f)
    } else if i == 11 {
        (0xff1b, 0xff)
    } else if i == 12 {
        (0xff1c, 0x9f)
    } else if i == 13 {
        (0xff1e, 0xbf)
    } else if i == 14 {
        (0xff20, 0xff)
    } else if i == 15 {
        (0xff21, 0x00)
    } else if i == 16 {
        (0xff22, 0x00)
    } else if i == 17 {
        (0xff23, 0xbf)
    } else if i == 18 {
        (0xff24, 0x77)
    } else if i == 19 {
        (0xff25, 0xf3)
    } else if i == 20 {
        (0xff26, 0xf1)
    } else if i == 21 {
        (0xff40, 0x91)
    } else if i == 22 {
        (0xff42, 0x00)
    } else if i == 23 {
        (0xff43, 0x00)
    } else if i == 24 {
        (0xff45, 0x00)
    } else if i == 25 {
        (0xff47, 0xfc)
    } else if i == 26 {
        (0xff48, 0xff)
    } else if i == 27 {
        (0xff49, 0xff)
    } else if i == 28 {
        (0xff4a, 0x00)
    } else if i == 29 {
        (0xff4b, 0x00)
    } else {
        (0xffff, 0x00)
    }
}

/// Number of post-boot port writes.
pub const INIT_PORTS: usize = 31;

fn init_port_of(i: usize) -> (r: (u16, u8))
    ensures
        r == init_port(i as int),
{
    if i == 0 {
        (0xff05, 0x00)
    } else if i == 1 {
        (0xff06, 0x00)
    } else if i == 2 {
        (0xff07, 0x00)
    } else if i == 3 {
        (0xff10, 0x80)
    } else if i == 4 {
        (0xff11, 0xbf)
    } else if i == 5 {
        (0xff12, 0xf3)
    } else if i == 6 {
        (0xff14, 0xbf)
    } else if i == 7 {
        (0xff16, 0x3f)
    } else if i == 8 {
        (0xff17, 0x00)
    } else if i == 9 {
        (0xff19, 0xbf)
    } else if i == 10 {
        (0xff1a, 0x7f)
    } else if i == 11 {
        (0xff1b, 0xff)
    } else if i == 12 {
        (0xff1c, 0x9f)
    } else if i == 13 {
        (0xff1e, 0xbf)
    } else if i == 14 {
        (0xff20, 0xff)
    } else if i == 15 {
        (0xff21, 0x00)
    } else if i == 16 {
        (0xff22, 0x00)
    } else if i == 17 {
        (0xff23, 0xbf)
    } else if i == 18 {
        (0xff24, 0x77)
    } else if i == 19 {
        (0xff25, 0xf3)
    } else if i == 20 {
        (0xff26, 0xf1)
    } else if i == 21 {
        (0xff40, 0x91)
    } else if i == 22 {
        (0xff42, 0x00)
    } else if i == 23 {
        (0xff43, 0x00)
    } else if i == 24 {
        (0xff45, 0x00)
    } else if i == 25 {
        (0xff47, 0xfc)
    } else if i == 26 {
        (0xff48, 0xff)
    } else if i == 27 {
        (0xff49, 0xff)
    } else if i == 28 {
        (0xff4a, 0x00)
    } else if i == 29 {
        (0xff4b, 0x00)
    } else {
        (0xffff, 0x00)
    }
}

pub struct Bus {
    pub mem: Memory,
    pub hdma: Hdma,
    pub dma: Dma,
    pub timer: Timer,
    pub joypad: Joypad,
    pub cart: Cartridge,
    pub ppu: Ppu,
    pub apu: Apu,
    pub interrupt_handler: InterruptHandler,
    pub prepare_speed_switch: bool,
    pub speed_mode: SpeedMode,
    pub cycles: u32,
    pub mcycles: u32,
    /// T-cycles charged since the counters were last cleared; `cycles` is
    /// this count modulo 2^32.
    pub total: Ghost<nat>,
}

impl Bus {
    pub open spec fn wf(&self) -> bool {
        &&& self.mem.wf()
        &&& self.hdma.wf()
        &&& self.dma.wf()
        &&& self.timer.wf()
        &&& self.cart.wf()
        &&& self.ppu.wf()
        &&& self.apu.wf()
        &&& self.interrupt_handler.wf()
        &&& self.cycles == self.total@ % 0x1_0000_0000
    }

    /// The number of audio samples mixed so far.
    pub open spec fn bus_samples(&self) -> nat {
        self.apu.mixed@
    }

    /// T-cycles that one bus access charges the PPU and APU: 4, or 2 at double speed.
    pub open spec fn tcycles_per_step(&self) -> u32 {
        if self.speed_mode == SpeedMode::Normal {
            4
        } else {
            2
        }
    }

    pub fn new(cart: Cartridge) -> (r: Self)
        requires
            cart.wf(),
        ensures
            r.wf(),
            r.cycles == 0 && r.mcycles == 0,
            r.speed_mode == SpeedMode::Normal && !r.prepare_speed_switch,
            r.cart.cgb == cart.cgb,
    {
        let cgb = cart.cgb();
        Bus {
            mem: Memory::new(cgb),
            hdma: Hdma::new(),
            dma: Dma::new(),
            timer: Timer::new(),
            joypad: Joypad::new(),
            cart,
            ppu: Ppu::new(cgb),
            apu: Apu::new(),
            interrupt_handler: InterruptHandler::new(),
            prepare_speed_switch: false,
            speed_mode: SpeedMode::Normal,
            cycles: 0,
            mcycles: 0,
            total: Ghost(0),
        }
    }

    /// One bus access: the timer gets 4 T-cycles, the PPU and APU the
    /// speed-scaled count (the APU divided by the audio divider), OAM DMA
    /// one byte per scaled T-cycle, and HDMA its pending block.
    #[verifier::rlimit(80)]
    pub fn step(&mut self)
        requires
            old(self).wf(),
        ensures
            final(self).wf(),
            final(self).cycles == (old(self).cycles + old(self).tcycles_per_step()) % 0x1_0000_0000,
            final(self).total@ == old(self).total@ + old(self).tcycles_per_step(),
            final(self).apu.mixed@ == old(self).apu.mixed@ + old(self).tcycles_per_step() / 2,
            final(self).mcycles == (old(self).mcycles + 1) % 0x1_0000_0000,
            final(self).speed_mode == old(self).speed_mode,
            final(self).prepare_speed_switch == old(self).prepare_speed_switch,
            final(self).cart == old(self).cart,
            final(self).mem == old(self).mem,
            final(self).interrupt_handler.ie_port == old(self).interrupt_handler.ie_port,
            final(self).ppu.lcdc == old(self).ppu.lcdc,
            crate::timer::advanced(old(self).timer, final(self).timer, 4),
            crate::ppu::line_advanced(old(self).ppu, final(self).ppu, old(self).tcycles_per_step() as int),
            crate::apu::advanced(old(self).apu, final(self).apu, old(self).tcycles_per_step() as int / 2),
            final(self).dma == old(self).dma.ticked_n(old(self).tcycles_per_step() as nat),
            exists|hblank: bool| final(self).hdma == #[trigger] old(self).hdma.next_spec(hblank),
    {
        let scaled: u32 = if self.speed_mode == SpeedMode::Normal {
            4
        } else {
            2
        };
        self.timer.update(4, &mut self.interrupt_handler);
        self.ppu.update(scaled, &mut self.interrupt_handler);
        self.apu.update(scaled / AUDIO_FREQ_DIVIDER);
        let ghost mid = *self;
        let mut k: u32 = 0;
        while k < scaled
            invariant
                k <= scaled,
                self.wf(),
                self.cycles == old(self).cycles,
                self.mcycles == old(self).mcycles,
                self.total == old(self).total,
                self.apu.mixed@ == old(self).apu.mixed@ + scaled / 2,
                scaled == old(self).tcycles_per_step(),
                self.speed_mode == old(self).speed_mode,
                self.prepare_speed_switch == old(self).prepare_speed_switch,
                self.cart == old(self).cart,
                self.mem == old(self).mem,
                self.interrupt_handler.ie_port == old(self).interrupt_handler.ie_port,
                self.ppu.lcdc == old(self).ppu.lcdc,
                self.timer == mid.timer && self.apu == mid.apu && self.hdma == mid.hdma,
                self.ppu.mode == mid.ppu.mode && self.ppu.ly == mid.ppu.ly,
                self.ppu.stat == mid.ppu.stat && self.ppu.lyc == mid.ppu.lyc,
                self.dma == old(self).dma.ticked_n(k as nat),
            decreases scaled - k,
        {
            self.do_dma();
            k = k + 1;
        }
        self.do_hdma();
        self.cycles = self.cycles.wrapping_add(scaled);
        self.total = Ghost(self.total@ + scaled as nat);
        self.mcycles = self.mcycles.wrapping_add(1);
    }

    /// STOP with a switch armed: toggle the speed and disarm.
    pub fn switch_mode(&mut self)
        ensures
            old(self).prepare_speed_switch ==> final(self).speed_mode != old(self).speed_mode
                && !final(self).prepare_speed_switch,
            !old(self).prepare_speed_switch ==> final(self).speed_mode == old(self).speed_mode
                && !final(self).prepare_speed_switch,
            final(self).mem == old(self).mem && final(self).cycles == old(self).cycles,
            final(self).total == old(self).total,
            final(self).apu.mixed == old(self).apu.mixed,
            final(self).cart == old(self).cart && final(self).ppu == old(self).ppu,
            final(self).apu == old(self).apu && final(self).timer == old(self).timer,
            final(self).hdma == old(self).hdma && final(self).dma == old(self).dma,
            final(self).interrupt_handler == old(self).interrupt_handler,
    {
        if self.prepare_speed_switch {
            self.speed_mode = if self.speed_mode == SpeedMode::Normal {
                SpeedMode::Double
            } else {
                SpeedMode::Normal
            };
            self.prepare_speed_switch = false;
        }
    }

    pub fn cycles(&self) -> (r: u32)
        ensures
            r == self.cycles,
    {
        self.cycles
    }

    pub fn mcycles(&self) -> (r: u32)
        ensures
            r == self.mcycles,
    {
        self.mcycles
    }

    /// Writes the post-boot I/O values, leaves no interrupt requested (IF
    /// reads 0xe0) and clears the cycle counters.
    pub fn reset(&mut self)
        requires
            old(self).wf(),
        ensures
            final(self).wf(),
            final(self).cycles == 0 && final(self).mcycles == 0,
            final(self).cart.cgb == old(self).cart.cgb,
            final(self).interrupt_handler.ie_port == 0,
            final(self).interrupt_handler.if_port == 0,
            final(self).ppu.lcdc == 0x91,
    {
        let mut i: usize = 0;
        while i < INIT_PORTS
            invariant
                i <= INIT_PORTS,
                self.wf(),
                self.cart.cgb == old(self).cart.cgb,
                i > 21 ==> self.ppu.lcdc == 0x91,
                i > 30 ==> self.interrupt_handler.ie_port == 0,
            decreases INIT_PORTS - i,
        {
            let (addr, data) = init_port_of(i);
            self.write(addr, data);
            i = i + 1;
        }
        self.interrupt_handler.if_port = 0;
        self.cycles = 0;
        self.mcycles = 0;
        self.total = Ghost(0);
    }

    /// A CPU read: the byte at `addr`, then one bus step.
    pub fn read(&mut self, addr: u16) -> (r: u8)
        requires
            old(self).wf(),
        ensures
            final(self).wf(),
            old(self).peek_spec(addr, r),
            final(self).total@ == old(self).total@ + old(self).tcycles_per_step(),
            final(self).apu.mixed@ == old(self).apu.mixed@ + old(self).tcycles_per_step() / 2,
            final(self).cart == old(self).cart,
            final(self).mem == old(self).mem,
            final(self).interrupt_handler.ie_port == old(self).interrupt_handler.ie_port,
            final(self).ppu.lcdc == old(self).ppu.lcdc,
            final(self).speed_mode == old(self).speed_mode,
            final(self).prepare_speed_switch == old(self).prepare_speed_switch,
    {
        let data = self.read_direct(addr);
        self.step();
        data
    }

    /// The byte at `addr` where it follows from the ROM image or from RAM
    /// alone (bank 0 of ROM, work RAM and its echo, high RAM).
    pub open spec fn known_byte(&self, addr: u16) -> Option<u8> {
        if addr <= 0x3fff {
            Some(crate::cart::rom_byte(self.cart.rom@, addr as int))
        } else if (0xc000 <= addr <= 0xfdff) || (0xff80 <= addr <= 0xfffe) {
            Some(self.mem.byte(addr))
        } else {
            None
        }
    }

    /// What `read_direct` promises of the byte it returns for `addr`.
    pub open spec fn peek_spec(&self, addr: u16, r: u8) -> bool {
        &&& 0xc000 <= addr <= 0xfdff ==> r == self.mem.byte(addr)
        &&& 0xff80 <= addr <= 0xfffe ==> r == self.mem.byte(addr)
        &&& 0xfea0 <= addr <= 0xfeff ==> r == 0xff
        &&& 0x8000 <= addr <= 0x9fff && self.ppu.mode == LcdMode::Transfer ==> r == 0xff
        &&& 0xfe00 <= addr <= 0xfe9f && (self.ppu.mode == LcdMode::OamSearch || self.ppu.mode
            == LcdMode::Transfer || self.dma.active) ==> r == 0xff
        &&& 0xfe00 <= addr <= 0xfe9f && (self.ppu.mode == LcdMode::HBlank || self.ppu.mode
            == LcdMode::VBlank) && !self.dma.active ==> r == self.ppu.vram.sprite_table@[addr - 0xfe00]
        &&& addr == IE_PORT ==> r == self.interrupt_handler.ie_port
        &&& addr == IF_PORT ==> r == self.interrupt_handler.if_port | 0xe0
        &&& addr <= 0x3fff ==> r == crate::cart::rom_byte(self.cart.rom@, addr as int)
        &&& self.known_byte(addr) matches Some(b) ==> r == b
    }

    /// The byte at `addr` without clocking anything. The echo range reads
    /// work RAM, the unused range FEA0-FEFF reads 0xff, and OAM reads 0xff
    /// while a DMA runs.
    pub fn read_direct(&self, addr: u16) -> (r: u8)
        requires
            self.wf(),
        ensures
            self.peek_spec(addr, r),
    {
        if addr <= 0x7fff {
            self.cart.read(addr)
        } else if addr <= 0x9fff {
            self.ppu.read(addr)
        } else if addr <= 0xbfff {
            self.cart.read(addr)
        } else if addr <= 0xfdff {
            self.mem.read(addr)
        } else if addr <= 0xfe9f {
            if self.dma.active {
                0xff
            } else {
                self.ppu.read(addr)
            }
        } else if addr <= 0xfeff {
            0xff
        } else if addr <= 0xff7f {
            self.read_io(addr)
        } else if addr <= 0xfffe {
            self.mem.read(addr)
        } else {
            self.interrupt_handler.read(addr)
        }
    }

    /// A CPU write to `addr`, then one bus step.
    #[verifier::rlimit(80)]
    pub fn write(&mut self, addr: u16, data: u8)
        requires
            old(self).wf(),
        ensures
            final(self).wf(),
            final(self).cart.cgb == old(self).cart.cgb,
            final(self).total@ == old(self).total@ + old(self).tcycles_per_step(),
            final(self).apu.mixed@ == old(self).apu.mixed@ + old(self).tcycles_per_step() / 2,
            final(self).speed_mode == old(self).speed_mode,
            (0xc000 <= addr <= 0xfdff || 0xff80 <= addr <= 0xfffe) ==> forall|a: u16|
                in_memory(a) ==> #[trigger] final(self).mem.byte(a) == if old(self).mem.cell(a)
                    == old(self).mem.cell(addr) {
                    data
                } else {
                    old(self).mem.byte(a)
                },
            addr == IE_PORT ==> final(self).interrupt_handler.ie_port == data % 32,
            !(addr <= 0x7fff || 0xa000 <= addr <= 0xbfff) ==> final(self).cart == old(self).cart,
            final(self).cart.rom == old(self).cart.rom,
            (0xc000 <= addr <= 0xfdff || 0xff80 <= addr <= 0xfffe) ==> final(self).mem.wram_bank == old(self).mem.wram_bank,
            addr == 0xff40 ==> final(self).ppu.lcdc == data,
            addr != 0xff40 ==> final(self).ppu.lcdc == old(self).ppu.lcdc,
            addr == 0xff46 ==> final(self).dma == (Dma {
                src: (data as int * 256) as u16,
                offset: 0,
                active: true,
                delay: true,
            }).ticked_n(old(self).tcycles_per_step() as nat),
    {
        if addr <= 0x7fff {
            self.cart.write(addr, data);
        } else if addr <= 0x9fff {
            self.ppu.write(addr, data);
        } else if addr <= 0xbfff {
            self.cart.write(addr, data);
        } else if addr <= 0xfdff {
            self.mem.write(addr, data);
        } else if addr <= 0xfe9f {
            self.ppu.write(addr, data);
        } else if addr <= 0xfeff {
        } else if addr <= 0xff7f {
            self.write_io(addr, data);
        } else if addr <= 0xfffe {
            self.mem.write(addr, data);
        } else {
            self.interrupt_handler.write(addr, data);
        }
        self.step();
    }

    fn read_io(&self, addr: u16) -> (r: u8)
        requires
            self.wf(),
            0xff00 <= addr <= 0xff7f,
        ensures
            addr == IF_PORT ==> r == self.interrupt_handler.if_port | 0xe0,
    {
        let cgb = self.cart.cgb();
        if addr == 0xff00 {
            self.joypad.read(addr)
        } else if 0xff04 <= addr && addr <= 0xff07 {
            self.timer.read(addr)
        } else if addr == 0xff0f {
            self.interrupt_handler.read(addr)
        } else if 0xff10 <= addr && addr <= 0xff3f {
            self.apu.read(addr)
        } else if addr == 0xff46 {
            self.dma.read(addr)
        } else if 0xff40 <= addr && addr <= 0xff4b {
            self.ppu.read(addr)
        } else if addr == 0xff4d && cgb {
            let speed: u8 = if self.speed_mode == SpeedMode::Double {
                0x80
            } else {
                0
            };
            let armed: u8 = if self.prepare_speed_switch {
                1
            } else {
                0
            };
            speed + armed
        } else if addr == 0xff4f {
            self.ppu.read(addr)
        } else if 0xff51 <= addr && addr <= 0xff55 && cgb {
            self.hdma.read(addr)
        } else if 0xff68 <= addr && addr <= 0xff6b {
            self.ppu.read(addr)
        } else if addr == 0xff70 && cgb {
            self.mem.wram_bank()
        } else {
            self.mem.read(addr)
        }
    }

    fn write_io(&mut self, addr: u16, data: u8)
        requires
            old(self).wf(),
            0xff00 <= addr <= 0xff7f,
        ensures
            final(self).wf(),
            final(self).cart.cgb == old(self).cart.cgb,
            final(self).cycles == old(self).cycles && final(self).mcycles == old(self).mcycles,
            final(self).total == old(self).total,
            final(self).apu.mixed == old(self).apu.mixed,
            final(self).speed_mode == old(self).speed_mode,
            addr == 0xff40 ==> final(self).ppu.lcdc == data,
            addr != 0xff40 ==> final(self).ppu.lcdc == old(self).ppu.lcdc,
            final(self).interrupt_handler.ie_port == old(self).interrupt_handler.ie_port,
            addr == 0xff46 ==> final(self).dma == (Dma {
                src: (data as int * 256) as u16,
                offset: 0,
                active: true,
                delay: true,
            }),
            addr != 0xff46 ==> final(self).dma == old(self).dma,
            final(self).cart == old(self).cart,
    {
        let cgb = self.cart.cgb();
        if addr == 0xff00 {
            self.joypad.write(addr, data);
        } else if 0xff04 <= addr && addr <= 0xff07 {
            self.timer.write(addr, data);
        } else if addr == 0xff0f {
            self.interrupt_handler.write(addr, data);
        } else if 0xff10 <= addr && addr <= 0xff3f {
            self.apu.write(addr, data);
        } else if addr == 0xff46 {
            self.dma.write(addr, data);
        } else if 0xff40 <= addr && addr <= 0xff4b {
            self.ppu.write(addr, data);
        } else if addr == 0xff4d && cgb {
            self.prepare_speed_switch = data % 2 == 1;
        } else if addr == 0xff4f {
            self.ppu.write(addr, data);
        } else if 0xff51 <= addr && addr <= 0xff55 && cgb {
            self.hdma.write(addr, data);
        } else if 0xff68 <= addr && addr <= 0xff6b {
            self.ppu.write(addr, data);
        } else if addr == 0xff70 && cgb {
            self.mem.switch_wram_bank(data);
        } else {
            self.mem.write(addr, data);
        }
    }

    /// Latches the frame's key state and checks for the joypad interrupt.
    pub fn set_input(&mut self, states: JoypadState)
        requires
            old(self).wf(),
        ensures
            final(self).wf(),
            final(self).cart.cgb == old(self).cart.cgb,
            final(self).cycles == old(self).cycles,
            final(self).total == old(self).total,
            final(self).apu.mixed == old(self).apu.mixed,
            final(self).interrupt_handler.ie_port == old(self).interrupt_handler.ie_port,
            final(self).mem == old(self).mem && final(self).cart == old(self).cart,
            no_keys(states) ==> final(self).interrupt_handler == old(self).interrupt_handler,
    {
        self.joypad.set_input(states);
        self.joypad.update(&mut self.interrupt_handler);
    }

    /// One OAM DMA clock: copies the next byte, if any, into OAM.
    fn do_dma(&mut self)
        requires
            old(self).wf(),
        ensures
            final(self).wf(),
            final(self).cycles == old(self).cycles && final(self).mcycles == old(self).mcycles,
            final(self).total == old(self).total,
            final(self).apu.mixed == old(self).apu.mixed,
            final(self).speed_mode == old(self).speed_mode,
            final(self).prepare_speed_switch == old(self).prepare_speed_switch,
            final(self).cart == old(self).cart,
            final(self).mem == old(self).mem,
            final(self).interrupt_handler.ie_port == old(self).interrupt_handler.ie_port,
            final(self).ppu.lcdc == old(self).ppu.lcdc,
            final(self).timer == old(self).timer && final(self).apu == old(self).apu,
            final(self).hdma == old(self).hdma && final(self).dma == old(self).dma.ticked(),
            final(self).ppu.mode == old(self).ppu.mode && final(self).ppu.ly == old(self).ppu.ly,
            final(self).ppu.stat == old(self).ppu.stat && final(self).ppu.lyc == old(self).ppu.lyc,
            !old(self).dma.delay && old(self).dma.active ==> {
                let o = old(self).dma.offset as int;
                &&& (Bus { dma: final(self).dma, ..*old(self) }).peek_spec(
                    (old(self).dma.src + old(self).dma.offset) as u16,
                    final(self).ppu.vram.sprite_table@[o],
                )
                &&& final(self).ppu.vram.sprite_table@ == old(self).ppu.vram.sprite_table@.update(o, final(self).ppu.vram.sprite_table@[o])
            },
            old(self).dma.delay || !old(self).dma.active ==> final(self).ppu.vram.sprite_table == old(self).ppu.vram.sprite_table,
    {
        if let Some((src, offset)) = self.dma.update() {
            assert(*self == (Bus { dma: self.dma, ..*old(self) }));
            let data = self.read_direct(src);
            self.ppu.dma_write(offset, data);
        }
    }

    /// Moves the HDMA block that is due, if any, into VRAM.
    fn do_hdma(&mut self)
        requires
            old(self).wf(),
        ensures
            final(self).wf(),
            final(self).cycles == old(self).cycles && final(self).mcycles == old(self).mcycles,
            final(self).total == old(self).total,
            final(self).apu.mixed == old(self).apu.mixed,
            final(self).speed_mode == old(self).speed_mode,
            final(self).prepare_speed_switch == old(self).prepare_speed_switch,
            final(self).cart == old(self).cart,
            final(self).mem == old(self).mem,
            final(self).interrupt_handler.ie_port == old(self).interrupt_handler.ie_port,
            final(self).ppu.lcdc == old(self).ppu.lcdc,
            final(self).timer == old(self).timer && final(self).apu == old(self).apu,
            final(self).dma == old(self).dma,
            exists|hblank: bool| final(self).hdma == #[trigger] old(self).hdma.next_spec(hblank),
            final(self).ppu.mode == old(self).ppu.mode && final(self).ppu.ly == old(self).ppu.ly,
            final(self).ppu.stat == old(self).ppu.stat && final(self).ppu.lyc == old(self).ppu.lyc,
    {
        let hblank = self.ppu.hdma_avaliable();
        if let Some((src, dst, len)) = self.hdma.update(hblank) {
            let mut offset: u16 = 0;
            while offset < len
                invariant
                    self.wf(),
                    self.cycles == old(self).cycles && self.mcycles == old(self).mcycles,
                    self.total == old(self).total,
                    self.apu.mixed == old(self).apu.mixed,
                    self.speed_mode == old(self).speed_mode,
                    self.prepare_speed_switch == old(self).prepare_speed_switch,
                    self.cart == old(self).cart,
                    self.mem == old(self).mem,
                    self.interrupt_handler.ie_port == old(self).interrupt_handler.ie_port,
                    self.ppu.lcdc == old(self).ppu.lcdc,
                self.ppu.lcdc == old(self).ppu.lcdc,
                self.timer == old(self).timer && self.apu == old(self).apu,
                    self.dma == old(self).dma,
                    self.hdma == old(self).hdma.next_spec(hblank),
                    self.ppu.mode == old(self).ppu.mode && self.ppu.ly == old(self).ppu.ly,
                    self.ppu.stat == old(self).ppu.stat && self.ppu.lyc == old(self).ppu.lyc,
                decreases len - offset,
            {
                let data = self.read_direct(src.wrapping_add(offset));
                let to = dst.wrapping_add(offset);
                if 0x8000 <= to && to <= 0x9fff {
                    self.ppu.hdma_write(to, data);
                }
                offset = offset + 1;
            }
        }
    }
}

/// Reading an echo address gives the byte 0x2000 below it.
pub proof fn lemma_bus_echo(bus: &Bus, addr: u16, a: u8, b: u8)
    requires
        bus.wf(),
        0xe000 <= addr <= 0xfdff,
        bus.peek_spec(addr, a),
        bus.peek_spec((addr - 0x2000) as u16, b),
    ensures
        a == b,
{
    crate::mem::lemma_echo_ram(&bus.mem, addr);
}

} // verus!
