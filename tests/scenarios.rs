use joy::apu::Apu;
use joy::bus::Bus;
use joy::cart::{Cartridge, CartridgeError};
use joy::cpu::CpuError;
use joy::gameboy::Gameboy;
use joy::interrupt::InterruptHandler;
use joy::joypad::JoypadState;
use joy::ppu::{LcdMode, Ppu};
use joy::timer::Timer;

/// A 32 KiB ROM-only image with a title and `program` at 0x100.
fn rom_with(program: &[u8], cgb_flag: u8) -> Vec<u8> {
    let mut rom = vec![0u8; 0x8000];
    for (i, b) in b"TEST".iter().enumerate() {
        rom[0x134 + i] = *b;
    }
    rom[0x143] = cgb_flag;
    rom[0x147] = 0x00;
    rom[0x148] = 0x00;
    rom[0x149] = 0x00;
    for (i, b) in program.iter().enumerate() {
        rom[0x100 + i] = *b;
    }
    rom
}

fn machine(program: &[u8]) -> Gameboy {
    let cart = Cartridge::from_rom(rom_with(program, 0x00)).expect("valid image");
    Gameboy::new(cart)
}

#[test]
fn dmg_post_boot_snapshot() {
    let mut gb = machine(&[]);
    gb.emulate(0, JoypadState::default()).unwrap();
    let reg = &gb.cpu.reg;
    assert_eq!(reg.af(), 0x01b0);
    assert_eq!(reg.bc(), 0x0013);
    assert_eq!(reg.de(), 0x00d8);
    assert_eq!(reg.hl(), 0x014d);
    assert_eq!(reg.sp, 0xfffe);
    assert_eq!(reg.pc, 0x0100);
    assert_eq!(gb.bus.read_direct(0xffff), 0x00);
    // No interrupt is requested by the reset sequence: only the unused bits read as one.
    assert_eq!(gb.bus.read_direct(0xff0f), 0xe0);
}

#[test]
fn cgb_post_boot_sets_a_to_0x11() {
    let cart = Cartridge::from_rom(rom_with(&[], 0x80)).unwrap();
    assert!(cart.cgb());
    let gb = Gameboy::new(cart);
    assert_eq!(gb.cpu.reg.a, 0x11);
}

#[test]
fn dma_timing() {
    let cart = Cartridge::from_rom(rom_with(&[], 0x00)).unwrap();
    let mut bus = Bus::new(cart);
    // Display on, then off: the PPU rests in HBlank, where OAM is readable.
    bus.write(0xff40, 0x80);
    bus.write(0xff40, 0x00);
    assert_eq!(bus.ppu.mode, LcdMode::HBlank);
    for i in 0..0xa0u16 {
        bus.write(0xc000 + i, i as u8);
    }
    let start = bus.cycles();
    bus.write(0xff46, 0xc0);
    while bus.cycles().wrapping_sub(start) < 162 {
        bus.step();
    }
    for i in 0..0xa0u16 {
        assert_eq!(bus.read_direct(0xfe00 + i), i as u8);
    }
}

#[test]
fn oam_reads_ff_while_dma_runs() {
    let cart = Cartridge::from_rom(rom_with(&[], 0x00)).unwrap();
    let mut bus = Bus::new(cart);
    bus.write(0xff40, 0x80);
    bus.write(0xff40, 0x00);
    bus.write(0xff46, 0xc0);
    assert!(bus.dma.active);
    assert_eq!(bus.read_direct(0xfe00), 0xff);
}

#[test]
fn timer_overflow() {
    let mut timer = Timer::new();
    let mut ih = InterruptHandler::new();
    timer.write(0xff07, 0x05);
    timer.write(0xff06, 0x42);
    timer.write(0xff05, 0xff);
    timer.update(16, &mut ih);
    assert_eq!(timer.read(0xff05), 0x42);
    assert_ne!(ih.if_port & 0x04, 0);
}

#[test]
fn timer_overflow_in_bus_sized_steps() {
    let mut timer = Timer::new();
    let mut ih = InterruptHandler::new();
    timer.write(0xff07, 0x05);
    timer.write(0xff06, 0x42);
    timer.write(0xff05, 0xff);
    for _ in 0..3 {
        timer.update(4, &mut ih);
        assert_eq!(timer.read(0xff05), 0xff);
        assert_eq!(ih.if_port & 0x04, 0);
    }
    timer.update(4, &mut ih);
    assert_eq!(timer.read(0xff05), 0x42);
    assert_ne!(ih.if_port & 0x04, 0);
}

#[test]
fn div_is_high_byte_and_resets_on_write() {
    let mut timer = Timer::new();
    let mut ih = InterruptHandler::new();
    for _ in 0..0x200 {
        timer.update(4, &mut ih);
    }
    assert_eq!(timer.read(0xff04), 0x08);
    timer.write(0xff04, 0x55);
    assert_eq!(timer.read(0xff04), 0x00);
}

#[test]
fn apu_square1_sweep_disable() {
    let mut apu = Apu::new();
    apu.write(0xff26, 0x80);
    apu.write(0xff10, 0x11);
    apu.write(0xff12, 0xf0);
    apu.write(0xff13, 0xff);
    apu.write(0xff14, 0x87);
    assert!(!apu.square1.is_on());
    assert_eq!(apu.read(0xff26) & 0x01, 0);
}

#[test]
fn sweep_overflow_on_a_sweep_clock_turns_square1_off() {
    let mut apu = Apu::new();
    apu.write(0xff26, 0x80);
    apu.write(0xff10, 0x11);
    apu.write(0xff12, 0xf0);
    apu.write(0xff13, 0x00);
    apu.write(0xff14, 0x85);
    // 0x500 + 0x280 = 0x780 fits, so the trigger leaves the channel on.
    assert!(apu.square1.is_on());
    apu.square1.tick_sweep();
    // The shadow became 0x780; the next one (0xb40) overflows.
    assert_eq!(apu.square1.sweep.shadow_freq, 0x780);
    assert!(!apu.square1.is_on());
    assert_eq!(apu.read(0xff26) & 0x01, 0);
}

#[test]
fn ppu_lyc_interrupt() {
    let mut ppu = Ppu::new(false);
    let mut ih = InterruptHandler::new();
    ppu.write(0xff40, 0x91);
    ppu.write(0xff45, 0x40);
    ppu.write(0xff41, 0x40);
    let mut guard = 0;
    while ppu.ly != 0x40 {
        assert_eq!(ih.if_port & 0x02, 0, "LCD raised at LY {}", ppu.ly);
        ppu.update(4, &mut ih);
        guard += 1;
        assert!(guard < 200_000);
    }
    assert_ne!(ih.if_port & 0x02, 0);
    assert_ne!(ppu.read(0xff41) & 0x04, 0);
}

#[test]
fn invalid_opcode_stops_the_frame() {
    let mut gb = machine(&[0x00, 0xd3]);
    let r = gb.emulate(1000, JoypadState::default());
    assert_eq!(r, Err(CpuError::InvalidOpcode(0xd3)));
}

#[test]
fn program_add_and_daa() {
    // LD A,0x45; ADD A,A; DAA; LD B,A; HALT
    let mut gb = machine(&[0x3e, 0x45, 0x87, 0x27, 0x47, 0x76]);
    gb.emulate(200, JoypadState::default()).unwrap();
    assert_eq!(gb.cpu.reg.b, 0x90);
    assert!(gb.cpu.halt);
}

#[test]
fn program_push_pop_af_masks_low_nibble() {
    // LD BC,0x12ff; PUSH BC; POP AF; HALT
    let mut gb = machine(&[0x01, 0xff, 0x12, 0xc5, 0xf1, 0x76]);
    gb.emulate(200, JoypadState::default()).unwrap();
    assert_eq!(gb.cpu.reg.a, 0x12);
    assert_eq!(gb.cpu.reg.af() & 0x0f, 0);
    assert_eq!(gb.cpu.reg.af(), 0x12f0);
}

#[test]
fn program_call_and_ret() {
    // CALL 0x0150; LD B,0x77; HALT ... at 0x150: LD C,0x33; RET
    let mut program = vec![0xcd, 0x50, 0x01, 0x06, 0x77, 0x76];
    program.resize(0x50, 0x00);
    program.extend_from_slice(&[0x0e, 0x33, 0xc9]);
    let mut gb = machine(&program);
    gb.emulate(400, JoypadState::default()).unwrap();
    assert_eq!(gb.cpu.reg.c, 0x33);
    assert_eq!(gb.cpu.reg.b, 0x77);
    assert_eq!(gb.cpu.reg.sp, 0xfffe);
}

#[test]
fn program_cb_bit_set_res() {
    // LD A,0x00; SET 3,A; LD B,A; RES 3,A; BIT 3,A; HALT
    let mut gb = machine(&[0x3e, 0x00, 0xcb, 0xdf, 0x47, 0xcb, 0x9f, 0xcb, 0x5f, 0x76]);
    gb.emulate(400, JoypadState::default()).unwrap();
    assert_eq!(gb.cpu.reg.b, 0x08);
    assert_eq!(gb.cpu.reg.a, 0x00);
    assert!(gb.cpu.reg.f.zero);
    assert!(gb.cpu.reg.f.half_carry);
}

#[test]
fn frame_buffer_is_stable_without_emulation() {
    let mut gb = machine(&[0x18, 0xfe]);
    gb.emulate(70224 * 2, JoypadState::default()).unwrap();
    let first = gb.get_frame_buffer().clone();
    let second = gb.get_frame_buffer().clone();
    assert_eq!(first.len(), 160 * 144 * 3);
    assert_eq!(first, second);
}

#[test]
fn audio_sample_count_grows_with_clocks() {
    let mut apu = Apu::new();
    apu.update(10);
    let first = apu.output();
    assert_eq!(first.len(), 10);
    apu.update(5);
    let second = apu.output();
    assert_eq!(second.len(), 5);
    assert!(apu.output().is_empty());
}

#[test]
fn emulating_a_frame_produces_audio() {
    let mut gb = machine(&[0x18, 0xfe]);
    gb.emulate(1000, JoypadState::default()).unwrap();
    let samples = gb.apu_output();
    assert!(samples.len() >= 1000 / 4 / 2 * 2);
    assert!(gb.apu_output().is_empty());
}

#[test]
fn cartridge_errors() {
    assert_eq!(Cartridge::from_rom(vec![0u8; 0x100]).err(), Some(CartridgeError::HeaderTooShort));
    let mut rom = rom_with(&[], 0);
    rom[0x148] = 9;
    assert_eq!(Cartridge::from_rom(rom).err(), Some(CartridgeError::BadRomSize(9)));
    let mut rom = rom_with(&[], 0);
    rom[0x149] = 6;
    assert_eq!(Cartridge::from_rom(rom).err(), Some(CartridgeError::BadRamSize(6)));
    let mut rom = rom_with(&[], 0);
    rom[0x148] = 1;
    assert_eq!(Cartridge::from_rom(rom).err(), Some(CartridgeError::SizeMismatch));
    let mut rom = rom_with(&[], 0);
    rom[0x147] = 0x20;
    assert_eq!(Cartridge::from_rom(rom).err(), Some(CartridgeError::UnsupportedMbc(0x20)));
}

#[test]
fn cartridge_header_fields() {
    let cart = Cartridge::from_rom(rom_with(&[], 0xc0)).unwrap();
    assert_eq!(cart.title(), "TEST");
    assert!(cart.cgb());
    assert_eq!(cart.entry_point(), 0x100);
    assert!(cart.ram().is_none());
}

#[test]
fn title_stops_at_fifteen_bytes() {
    let mut rom = rom_with(&[], 0);
    for i in 0..15 {
        rom[0x134 + i] = b'A' + i as u8;
    }
    let cart = Cartridge::from_rom(rom).unwrap();
    assert_eq!(cart.title(), "ABCDEFGHIJKLMNO");
}

#[test]
fn interrupt_is_serviced_once_ei_takes_effect() {
    // DI; LD A,1; LDH (FF),A; LDH (0F),A; EI; NOP; LD C,0x11; HALT
    let mut rom = rom_with(&[0xf3, 0x3e, 0x01, 0xe0, 0xff, 0xe0, 0x0f, 0xfb, 0x00, 0x0e, 0x11, 0x76], 0);
    // Vector 0x40: LD B,0x99; HALT
    rom[0x40] = 0x06;
    rom[0x41] = 0x99;
    rom[0x42] = 0x76;
    let mut gb = Gameboy::new(Cartridge::from_rom(rom).unwrap());
    gb.emulate(400, JoypadState::default()).unwrap();
    assert_eq!(gb.cpu.reg.b, 0x99);
    assert_eq!(gb.cpu.reg.c, 0x13);
    assert!(!gb.cpu.interrupt_master_enable);
    assert_eq!(gb.bus.read_direct(0xff0f) & 0x01, 0);
    // IME takes effect at the start of the next step, which services the
    // interrupt first: the return address is that of the NOP after EI.
    assert_eq!(gb.cpu.reg.sp, 0xfffc);
    assert_eq!(gb.bus.read_direct(0xfffc), 0x08);
    assert_eq!(gb.bus.read_direct(0xfffd), 0x01);
}

#[test]
fn halt_without_ime_wakes_without_servicing() {
    // LD A,4; LDH (FF),A; DI; HALT; LD B,0x55; HALT
    let mut gb = machine(&[0x3e, 0x04, 0xe0, 0xff, 0xf3, 0x76, 0x06, 0x55, 0x76]);
    gb.emulate(100, JoypadState::default()).unwrap();
    assert!(gb.cpu.halt);
    gb.bus.write(0xff0f, 0x04);
    gb.emulate(100, JoypadState::default()).unwrap();
    assert_eq!(gb.cpu.reg.b, 0x55);
    assert_ne!(gb.bus.read_direct(0xff0f) & 0x04, 0);
}

#[test]
fn program_bit_on_memory_and_sp_relative_load() {
    // LD HL,0xC000; LD (HL),0x80; BIT 7,(HL); LD B,0; JR NZ,+2; LD B,1; LD HL,SP-2; HALT
    let mut gb = machine(&[
        0x21, 0x00, 0xc0, 0x36, 0x80, 0xcb, 0x7e, 0x06, 0x00, 0x20, 0x02, 0x06, 0x01, 0xf8, 0xfe, 0x76,
    ]);
    gb.emulate(400, JoypadState::default()).unwrap();
    assert_eq!(gb.cpu.reg.b, 0x00);
    assert_eq!(gb.cpu.reg.hl(), 0xfffc);
    assert_eq!(gb.cpu.reg.sp, 0xfffe);
    assert!(gb.cpu.reg.f.half_carry && gb.cpu.reg.f.carry);
}

#[test]
fn rst_pushes_and_jumps() {
    // RST 0x28 at 0x100; at 0x28: LD B,0x42; HALT
    let mut rom = rom_with(&[0xef], 0);
    rom[0x28] = 0x06;
    rom[0x29] = 0x42;
    rom[0x2a] = 0x76;
    let mut gb = Gameboy::new(Cartridge::from_rom(rom).unwrap());
    gb.emulate(200, JoypadState::default()).unwrap();
    assert_eq!(gb.cpu.reg.b, 0x42);
    assert_eq!(gb.cpu.reg.sp, 0xfffc);
    assert_eq!(gb.bus.read_direct(0xfffc), 0x01);
    assert_eq!(gb.bus.read_direct(0xfffd), 0x01);
}

#[test]
fn program_res_on_memory_writes_back() {
    // LD HL,0xC000; LD (HL),0xFF; RES 0,(HL); SET 0,B... ; HALT
    let mut gb = machine(&[0x21, 0x00, 0xc0, 0x36, 0xff, 0xcb, 0x86, 0x76]);
    gb.emulate(200, JoypadState::default()).unwrap();
    assert_eq!(gb.bus.read_direct(0xc000), 0xfe);
}

#[test]
fn stop_commits_an_armed_speed_switch_on_cgb() {
    // LD A,1; LDH (4D),A; STOP 0; HALT
    let cart = Cartridge::from_rom(rom_with(&[0x3e, 0x01, 0xe0, 0x4d, 0x10, 0x00, 0x76], 0xc0)).unwrap();
    let mut gb = Gameboy::new(cart);
    gb.emulate(200, JoypadState::default()).unwrap();
    assert_eq!(gb.bus.speed_mode, joy::bus::SpeedMode::Double);
    assert!(!gb.bus.prepare_speed_switch);
    assert_eq!(gb.bus.read_direct(0xff4d), 0x80);
}
