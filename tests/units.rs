use joy::apu::envelope::{Envelope, EnvelopeMode};
use joy::apu::lencounter::LengthCounter;
use joy::apu::lfsr::{WidthMode, LFSR};
use joy::apu::mixer::Mixer;
use joy::apu::noise::Noise;
use joy::apu::sweep::Sweep;
use joy::apu::duty::Duty;
use joy::apu::timer::Timer as ApuTimer;
use joy::apu::wave::Wave;
use joy::apu::wavetable::WaveTable;
use joy::apu::{freq_high, freq_low, freq_to_period, Apu};
use joy::bus::dma::Dma;
use joy::bus::hdma::{Hdma, HdmaMode};
use joy::cart::mbc1::MBC1;
use joy::cart::mbc2::MBC2;
use joy::cart::mbc3::{rtc_read, rtc_write, Latch, RtcMode, MBC3};
use joy::cart::mbc5::MBC5;
use joy::cart::{copy_prefix, Cartridge};
use joy::cpu::alu::{add_relative, daa};
use joy::cpu::reg::{Flag, Reg};
use joy::cpu::Cpu;
use joy::interrupt::{Interrupt, InterruptHandler};
use joy::joypad::{Joypad, JoypadState};
use joy::mem::Memory;
use joy::ppu::palette::{Palette, PaletteIndex};
use joy::ppu::vram::{BgAttr, TileValue, VideoRam};
use joy::ppu::{LcdMode, Ppu};

#[test]
fn interrupt_service_picks_lowest_enabled_bit() {
    let mut ih = InterruptHandler::new();
    ih.write(0xffff, 0x1f);
    ih.request_interrupt(Interrupt::Timer);
    ih.request_interrupt(Interrupt::VBlank);
    assert!(ih.has_interrupts());
    assert_eq!(ih.service_interrupt(), Some(0x40));
    assert_eq!(ih.read(0xff0f), 0xe4);
    assert_eq!(ih.service_interrupt(), Some(0x50));
    assert_eq!(ih.service_interrupt(), None);
    assert!(!ih.has_interrupts());
}

#[test]
fn interrupt_service_skips_disabled() {
    let mut ih = InterruptHandler::new();
    ih.write(0xffff, 0x10);
    ih.write(0xff0f, 0xff);
    assert_eq!(ih.read(0xff0f), 0xff);
    assert_eq!(ih.service_interrupt(), Some(0x60));
    assert_eq!(ih.read(0xff0f), 0xef);
    assert!(ih.interrupt_enabled(Interrupt::Joypad));
    assert!(!ih.interrupt_enabled(Interrupt::Serial));
}

#[test]
fn joypad_groups_are_active_low() {
    let mut joypad = Joypad::new();
    let mut ih = InterruptHandler::new();
    ih.write(0xffff, 0x10);
    joypad.set_input(JoypadState { start: true, button_a: true, up: true, ..Default::default() });
    joypad.write(0xff00, 0x10);
    assert_eq!(joypad.read(0xff00), 0xd6);
    joypad.write(0xff00, 0x20);
    assert_eq!(joypad.read(0xff00), 0xeb);
    joypad.write(0xff00, 0x30);
    assert_eq!(joypad.read(0xff00), 0xff);
    joypad.write(0xff00, 0x10);
    joypad.update(&mut ih);
    assert_ne!(ih.if_port & 0x10, 0);
}

#[test]
fn joypad_requests_even_when_not_enabled() {
    let mut joypad = Joypad::new();
    let mut ih = InterruptHandler::new();
    joypad.set_input(JoypadState { down: true, ..Default::default() });
    joypad.write(0xff00, 0x20);
    joypad.update(&mut ih);
    assert_eq!(ih.if_port, 0x10);
    assert!(!ih.has_interrupts());
}

#[test]
fn joypad_no_interrupt_when_nothing_held() {
    let mut joypad = Joypad::new();
    let mut ih = InterruptHandler::new();
    ih.write(0xffff, 0x10);
    joypad.set_input(JoypadState::default());
    joypad.write(0xff00, 0x00);
    joypad.update(&mut ih);
    assert_eq!(ih.if_port, 0);
}

#[test]
fn memory_echo_and_banks() {
    let mut mem = Memory::new(true);
    mem.write(0xc123, 0x42);
    assert_eq!(mem.read(0xe123), 0x42);
    mem.write(0xf456, 0x99);
    assert_eq!(mem.read(0xd456), 0x99);
    mem.switch_wram_bank(2);
    assert_eq!(mem.wram_bank(), 0xfa);
    assert_eq!(mem.read(0xd456), 0x00);
    mem.switch_wram_bank(0);
    assert_eq!(mem.read(0xd456), 0x99);
    mem.write(0xff80, 7);
    assert_eq!(mem.read(0xff80), 7);
}

#[test]
fn memory_dmg_ignores_bank_switch() {
    let mut mem = Memory::new(false);
    mem.switch_wram_bank(5);
    assert_eq!(mem.wram_bank(), 0xf9);
}

#[test]
fn apu_timer_fires_every_period_plus_one() {
    let mut t = ApuTimer::new(2);
    assert!(t.tick());
    assert!(!t.tick());
    assert!(!t.tick());
    assert!(t.tick());
    t.set_period(0);
    t.reset();
    assert!(t.tick());
}

#[test]
fn duty_walks_its_pattern() {
    let mut duty = Duty::new();
    duty.set_duty(2);
    duty.set_freq(2047, 0);
    let levels: Vec<u8> = (0..8).map(|_| duty.next()).collect();
    assert_eq!(levels, vec![0, 0, 0, 0, 1, 1, 1, 1]);
}

#[test]
fn envelope_saturates_at_fifteen() {
    let mut env = Envelope::new();
    env.set_start_volume(14);
    env.set_period(1);
    env.set_increment(true);
    env.reset();
    assert_eq!(env.volume(), 14);
    env.next();
    assert_eq!(env.volume(), 15);
    env.next();
    assert_eq!(env.volume(), 15);
    assert_eq!(env.counter, 0);
    assert_eq!(env.mode, EnvelopeMode::Inc);
}

#[test]
fn envelope_decreases_to_zero() {
    let mut env = Envelope::new();
    env.set_start_volume(1);
    env.set_period(1);
    env.set_increment(false);
    env.reset();
    env.next();
    assert_eq!(env.volume(), 0);
    env.next();
    assert_eq!(env.volume(), 0);
}

#[test]
fn length_counter_expires() {
    let mut lc = LengthCounter::new(64);
    lc.set_counter(2);
    lc.set_mode_on(true);
    assert!(lc.next());
    assert!(!lc.next());
    assert!(lc.next());
    lc.reset();
    assert_eq!(lc.counter, 64);
    lc.set_mode_on(false);
    assert!(!lc.is_on());
}

#[test]
fn lfsr_shifts_xor_into_top() {
    let mut l = LFSR::new();
    l.set_state(0x00);
    assert_eq!(l.timer.period, 8);
    l.set_state(0x39);
    assert_eq!(l.mode, WidthMode::Low);
    assert_eq!(l.timer.period, 16 << 3);
    l.reset();
    l.timer.counter = 0;
    l.shift_reg = 0x0001;
    l.mode = WidthMode::High;
    assert_eq!(l.next(), 1);
    assert_eq!(l.shift_reg, 0x4000);
    l.timer.counter = 0;
    l.shift_reg = 0x0001;
    l.mode = WidthMode::Low;
    l.next();
    assert_eq!(l.shift_reg, 0x4040);
}

#[test]
fn sweep_calc_freq() {
    let mut s = Sweep::new();
    s.shadow_freq = 0x400;
    s.shift = 2;
    assert_eq!(s.calc_freq(), 0x500);
    s.negate = true;
    assert_eq!(s.calc_freq(), 0x300);
    s.period = 1;
    s.negate = false;
    s.shift = 1;
    assert!(!s.trigger(0x7ff));
    assert!(s.trigger(0x100));
    assert_eq!(s.counter, 1);
}

#[test]
fn wave_table_entries() {
    let mut wt = WaveTable::new();
    assert_eq!(wt.get_entry(0), 0x84);
    wt.set_entry(3, 0xab);
    assert_eq!(wt.get_entry(3), 0xab);
    assert_eq!(wt.wave_table[6], 0x0a);
    assert_eq!(wt.wave_table[7], 0x0b);
}

#[test]
fn wave_channel_volume_and_ram_lock() {
    let mut w = Wave::new();
    w.write_wave(0, 0xf0);
    assert_eq!(w.read_wave(0), 0xf0);
    w.set_x0(0x80);
    w.set_x2(0x40);
    assert_eq!(w.volume_shift, 1);
    w.set_x2(0x00);
    assert_eq!(w.volume_shift, 4);
    w.set_x4(0x80);
    assert!(w.is_on());
    w.write_wave(0, 0x00);
    assert_eq!(w.wave_table.get_entry(0), 0xf0);
}

#[test]
fn noise_trigger_needs_dac() {
    let mut n = Noise::new();
    n.set_x4(0x80);
    assert!(!n.is_on());
    n.set_x2(0xf0);
    assert!(n.is_dac_on());
    n.set_x4(0x80);
    assert!(n.is_on());
    assert_eq!(n.rand.shift_reg, 0x7fff);
}

#[test]
fn mixer_full_scale() {
    let mut m = Mixer::new();
    m.set_volume(0x77);
    m.set_output(0xff);
    assert_eq!(m.mix([15, 15, 15, 15]), (248, 248));
    m.set_output(0x01);
    m.set_volume(0x00);
    // SO1 gets channel 1 only at volume 1: 15 / 4 = 3; SO2 gets nothing.
    assert_eq!(m.mix([15, 15, 15, 15]), (128, 131));
}

#[test]
fn frequency_registers() {
    assert_eq!(freq_low(0x712, 0x34), 0x734);
    assert_eq!(freq_high(0x712, 0xfd), 0x512);
    assert_eq!(freq_to_period(512), 8192);
}

#[test]
fn apu_ignores_writes_while_off() {
    let mut apu = Apu::new();
    apu.write(0xff12, 0xf0);
    assert_eq!(apu.read(0xff12), 0x00);
    apu.write(0xff26, 0x80);
    apu.write(0xff12, 0xf3);
    assert_eq!(apu.read(0xff12), 0xf3);
    assert_eq!(apu.read(0xff11), 0x3f);
    assert_eq!(apu.read(0xff26), 0xf0);
    apu.write(0xff26, 0x00);
    assert_eq!(apu.read(0xff12), 0x00);
    assert_eq!(apu.read(0xff26), 0x70);
}

#[test]
fn apu_silence_while_off() {
    let mut apu = Apu::new();
    apu.update(3);
    assert_eq!(apu.output(), vec![(0, 0), (0, 0), (0, 0)]);
}

#[test]
fn dma_delay_then_bytes() {
    let mut dma = Dma::new();
    dma.write(0xff46, 0xc1);
    assert_eq!(dma.update(), None);
    assert_eq!(dma.update(), Some((0xc100, 0)));
    for i in 1..160u16 {
        assert_eq!(dma.update(), Some((0xc100 + i, i)));
    }
    assert!(!dma.active);
    assert_eq!(dma.update(), None);
    assert_eq!(dma.read(0xff46), 0);
}

#[test]
fn hdma_general_and_hblank_modes() {
    let mut h = Hdma::new();
    h.write(0xff51, 0xc0);
    h.write(0xff52, 0x12);
    h.write(0xff53, 0x01);
    h.write(0xff54, 0x23);
    h.write(0xff55, 0x01);
    assert_eq!(h.mode, Some(HdmaMode::GDMA));
    assert_eq!(h.update(false), Some((0xc010, 0x8120, 0x20)));
    assert_eq!(h.read(0xff55), 0xff);
    h.write(0xff55, 0x81);
    assert_eq!(h.update(false), None);
    assert_eq!(h.update(true), Some((0xc030, 0x8140, 0x10)));
    assert_eq!(h.read(0xff55), 0x00);
    h.write(0xff55, 0x00);
    assert_eq!(h.mode, None);
}

#[test]
fn mbc1_switches_rom_banks() {
    let mut rom = vec![0u8; 0x10000];
    for bank in 0..4 {
        rom[bank * 0x4000] = bank as u8;
    }
    let mut m = MBC1::new(0x10000, 0x2000);
    assert_eq!(m.read(&rom, 0x4000), 1);
    m.write(0x2000, 0x02);
    assert_eq!(m.read(&rom, 0x4000), 2);
    m.write(0x2000, 0x00);
    assert_eq!(m.read(&rom, 0x4000), 1);
    assert_eq!(m.read(&rom, 0x0000), 0);
}

#[test]
fn mbc1_ram_needs_enable() {
    let rom = vec![0u8; 0x8000];
    let mut m = MBC1::new(0x8000, 0x2000);
    m.write(0xa000, 0x55);
    assert_eq!(m.read(&rom, 0xa000), 0xff);
    m.write(0x0000, 0x0a);
    m.write(0xa000, 0x55);
    assert_eq!(m.read(&rom, 0xa000), 0x55);
    assert!(m.get_ram().is_some());
}

#[test]
fn mbc2_nibble_ram() {
    let rom = vec![0u8; 0x8000];
    let mut m = MBC2::new(0x8000);
    m.write(0x0000, 0x0a);
    m.write(0xa010, 0xab);
    assert_eq!(m.read(&rom, 0xa010), 0x0b);
    m.write(0x0100, 0x00);
    assert_eq!(m.read(&rom, 0xa010), 0x0b);
    m.write(0x0000, 0x00);
    assert_eq!(m.read(&rom, 0xa010), 0xff);
}

#[test]
fn mbc5_nine_bit_bank() {
    let mut rom = vec![0u8; 0x80_0000];
    rom[0x100 * 0x4000 + 5] = 0x77;
    let mut m = MBC5::new(0x80_0000, 0);
    m.write(0x3000, 0x01);
    m.write(0x2000, 0x00);
    assert_eq!(m.rom_bank, 0x100);
    assert_eq!(m.read(&rom, 0x4005), 0x77);
    m.write(0x0000, 0x0a);
    assert!(!m.ram_enable);
    assert_eq!(m.read(&rom, 0xa000), 0xff);
    m.write(0x3000, 0x00);
    m.write(0x2000, 0x00);
    assert_eq!(m.rom_bank, 1);
}

#[test]
fn mbc3_clock_registers_while_halted() {
    let rom = vec![0u8; 0x8000];
    let mut m = MBC3::new(0x8000, 0x2000);
    m.write(0x0000, 0x0a);
    m.write(0x4000, 0x08);
    m.write(0xa000, 0x05);
    assert_eq!(m.read(&rom, 0xa000), 5);
    m.write(0x4000, 0x09);
    m.write(0xa000, 0x3b);
    assert_eq!(m.read(&rom, 0xa000), 0x3b);
    m.write(0x4000, 0x08);
    assert_eq!(m.read(&rom, 0xa000), 5);
    m.write(0x4000, 0x0c);
    assert_eq!(m.read(&rom, 0xa000), 0x40);
}

#[test]
fn mbc3_latch_sequence() {
    let mut l = Latch::Step0;
    l.step(0x00);
    assert_eq!(l, Latch::Step1);
    l.step(0x01);
    assert!(l.latch());
    l.step(0x00);
    assert_eq!(l, Latch::Latch1);
    l.step(0x42);
    assert_eq!(l, Latch::Step0);
}

#[test]
fn rtc_fields() {
    let t = 2 * 86400 + 3 * 3600 + 4 * 60 + 5;
    assert_eq!(rtc_read(t, RtcMode::Seconds, false), 5);
    assert_eq!(rtc_read(t, RtcMode::Minutes, false), 4);
    assert_eq!(rtc_read(t, RtcMode::Hours, false), 3);
    assert_eq!(rtc_read(t, RtcMode::DaysLow, false), 2);
    assert_eq!(rtc_read(300 * 86400, RtcMode::DaysHigh, true), 0x41);
    assert_eq!(rtc_write(t, RtcMode::Hours, 10), t + 7 * 3600);
    assert_eq!(rtc_write(t, RtcMode::DaysLow, 9), 9 * 86400 + 3 * 3600 + 4 * 60 + 5);
}

#[test]
fn cartridge_save_ram_round_trip() {
    let mut rom = vec![0u8; 0x8000];
    rom[0x147] = 0x03;
    rom[0x149] = 0x02;
    let mut cart = Cartridge::from_rom(rom).unwrap();
    assert_eq!(cart.ram().map(|r| r.len()), Some(0x2000));
    cart.load_ram(&vec![1, 2, 3]);
    cart.write(0x0000, 0x0a);
    assert_eq!(cart.read(0xa001), 2);
    assert_eq!(&cart.ram().unwrap()[..4], &[1, 2, 3, 0]);
}

#[test]
fn copy_prefix_keeps_length() {
    let mut dst = vec![9u8; 4];
    copy_prefix(&mut dst, &vec![1, 2]);
    assert_eq!(dst, vec![1, 2, 9, 9]);
    copy_prefix(&mut dst, &vec![5, 5, 5, 5, 5, 5]);
    assert_eq!(dst, vec![5, 5, 5, 5]);
}

#[test]
fn registers_pairs_and_af() {
    let mut reg = Reg::new();
    reg.set_af(0x12ff);
    assert_eq!(reg.af(), 0x12f0);
    assert!(reg.f.zero && reg.f.substract && reg.f.half_carry && reg.f.carry);
    reg.set_hl(0xbeef);
    assert_eq!((reg.h, reg.l), (0xbe, 0xef));
    assert_eq!(reg.hl(), 0xbeef);
    reg.f.clear();
    assert_eq!(reg.f.to_u8(), 0);
    assert_eq!(Flag::from_u8(0x90).to_u8(), 0x90);
}

#[test]
fn alu_flags() {
    let mut cpu = Cpu::new(false);
    cpu.reg.a = 0x0f;
    cpu.add(0x01);
    assert_eq!(cpu.reg.a, 0x10);
    assert!(cpu.reg.f.half_carry && !cpu.reg.f.carry && !cpu.reg.f.zero);
    cpu.reg.a = 0xff;
    cpu.add(0x01);
    assert_eq!(cpu.reg.a, 0x00);
    assert!(cpu.reg.f.zero && cpu.reg.f.carry);
    cpu.reg.a = 0x00;
    cpu.reg.f.carry = true;
    cpu.sbc(0x00);
    assert_eq!(cpu.reg.a, 0xff);
    assert!(cpu.reg.f.carry && cpu.reg.f.half_carry && cpu.reg.f.substract);
    cpu.reg.a = 0x3c;
    cpu.cp(0x3c);
    assert!(cpu.reg.f.zero);
    assert_eq!(cpu.reg.a, 0x3c);
}

#[test]
fn rotates_and_bits() {
    let mut cpu = Cpu::new(false);
    cpu.reg.f.carry = false;
    assert_eq!(cpu.rlc(0x85), 0x0b);
    assert!(cpu.reg.f.carry);
    assert_eq!(cpu.rr(0x01), 0x80);
    assert!(cpu.reg.f.carry);
    assert_eq!(cpu.sra(0x81), 0xc0);
    assert_eq!(cpu.swap(0xf1), 0x1f);
    assert_eq!(cpu.srl(0x01), 0x00);
    assert!(cpu.reg.f.zero && cpu.reg.f.carry);
    assert_eq!(cpu.res(7, 0xff), 0x7f);
    assert_eq!(cpu.set(0, 0x00), 0x01);
    cpu.bit(7, 0x7f);
    assert!(cpu.reg.f.zero);
}

#[test]
fn sp_relative_flags_use_unsigned_bytes() {
    let mut cpu = Cpu::new(false);
    cpu.reg.sp = 0x00ff;
    cpu.add_sp(0x01);
    assert_eq!(cpu.reg.sp, 0x0100);
    assert!(cpu.reg.f.half_carry && cpu.reg.f.carry && !cpu.reg.f.zero);
    cpu.reg.sp = 0x0000;
    cpu.add_sp(0xff);
    assert_eq!(cpu.reg.sp, 0xffff);
    assert!(!cpu.reg.f.half_carry && !cpu.reg.f.carry);
    assert_eq!(add_relative(0x1000, 0x80), 0x0f80);
}

#[test]
fn daa_examples() {
    let add = Flag { zero: false, substract: false, half_carry: false, carry: false };
    assert_eq!(daa(0x8a, add).0, 0x90);
    let sub = Flag { zero: false, substract: true, half_carry: true, carry: false };
    assert_eq!(daa(0x0f, sub).0, 0x09);
    let carry = Flag { zero: false, substract: false, half_carry: false, carry: true };
    let (a, f) = daa(0x00, carry);
    assert_eq!(a, 0x60);
    assert!(f.carry);
}

#[test]
fn add_hl_half_carry_from_bit_11() {
    let mut cpu = Cpu::new(false);
    cpu.reg.set_hl(0x0fff);
    cpu.add_hl(0x0001);
    assert_eq!(cpu.reg.hl(), 0x1000);
    assert!(cpu.reg.f.half_carry && !cpu.reg.f.carry);
    cpu.reg.set_hl(0xffff);
    cpu.add_hl(0x0001);
    assert_eq!(cpu.reg.hl(), 0x0000);
    assert!(cpu.reg.f.carry);
}

#[test]
fn palette_color_correction() {
    let mut p = Palette::build(true);
    p.write_index(0x80);
    p.write_data(0x1f);
    p.write_data(0x00);
    assert_eq!(p.read_index(), 0x82);
    assert_eq!(p.color(0, TileValue::B00), [201, 0, 46]);
    p.write_index(0x01);
    p.write_data(0xff);
    p.write_index(0x00);
    assert_eq!(p.read_data(), 0x1f);
    assert_eq!(p.color(0, TileValue::B00), [240, 206, 240]);
    p.write_data(0xff);
    assert_eq!(p.read_data(), 0xff);
    p.write_index(0x01);
    assert_eq!(p.read_data(), 0x7f);
    // White saturates at 960 / 4.
    assert_eq!(p.color(0, TileValue::B00), [240, 240, 240]);
}

#[test]
fn dmg_palette_maps_shades() {
    let mut p = Palette::build(false);
    p.write_dmg(0, 0x1b);
    assert_eq!(p.read_dmg(0), 0x1b);
    assert_eq!(p.color(0, TileValue::B00), [0x2d, 0x1b, 0x00]);
    assert_eq!(p.color(0, TileValue::B11), [0xc4, 0xf0, 0xc2]);
    assert_eq!(PaletteIndex::from_u8(0xe4).pal, [0, 1, 2, 3]);
}

#[test]
fn vram_decodes_tile_rows() {
    let mut v = VideoRam::new(false);
    v.write_tile(0x10, 0b1010_0000, LcdMode::HBlank);
    v.write_tile(0x11, 0b1100_0000, LcdMode::HBlank);
    let row = v.tile(0, 1, 0);
    assert!(row[0] == TileValue::B11);
    assert!(row[1] == TileValue::B10);
    assert!(row[2] == TileValue::B01);
    assert!(row[3] == TileValue::B00);
    v.write_tile(0x10, 0xff, LcdMode::Transfer);
    assert_eq!(v.read_tile(0x10, LcdMode::HBlank), 0b1010_0000);
    assert_eq!(v.read_tile(0x10, LcdMode::Transfer), 0xff);
}

#[test]
fn vram_decodes_sprites_and_attributes() {
    let mut v = VideoRam::new(true);
    v.write_sprite(4, 0x20, LcdMode::VBlank);
    v.write_sprite(5, 0x18, LcdMode::VBlank);
    v.write_sprite(7, 0xeb, LcdMode::VBlank);
    let sp = v.sprites()[1];
    assert_eq!((sp.y, sp.x, sp.index), (0x20, 0x18, 1));
    assert!(!sp.above_bg && sp.flip_y && sp.flip_x);
    assert_eq!((sp.palette, sp.vram_bank), (3, 1));
    assert_eq!(v.read_sprite(4, LcdMode::OamSearch), 0xff);
    v.switch_bank(1);
    v.write_map(0, 0xa9, LcdMode::HBlank);
    assert_eq!(v.read_map(0, LcdMode::HBlank), 0xa9);
    let attr = v.attrmap(0);
    assert!(attr == BgAttr::from_u8(0xa9));
    assert_eq!((attr.bg_pal_index, attr.vram_bank, attr.flip_x, attr.above_all), (1, 1, true, true));
}

#[test]
fn oam_search_keeps_ten_sorted_by_x() {
    let mut ppu = Ppu::new(false);
    for i in 0..12u16 {
        ppu.dma_write(i * 4, 16);
        ppu.dma_write(i * 4 + 1, 100 - i as u8);
    }
    ppu.ly = 0;
    ppu.oam_search();
    assert_eq!(ppu.oam_buffer.len(), 10);
    for w in ppu.oam_buffer.windows(2) {
        assert!(w[0].x <= w[1].x);
    }
    assert_eq!(ppu.oam_buffer[0].x, 91);
}

#[test]
fn ppu_gates_vram_during_transfer() {
    let mut ppu = Ppu::new(false);
    assert_eq!(ppu.mode, LcdMode::Transfer);
    ppu.write(0x8000, 0x12);
    assert_eq!(ppu.read(0x8000), 0xff);
    ppu.write(0xff40, 0x80);
    ppu.write(0xff40, 0x00);
    assert_eq!(ppu.mode, LcdMode::HBlank);
    ppu.write(0x8000, 0x12);
    assert_eq!(ppu.read(0x8000), 0x12);
    assert_eq!(ppu.read(0xff41) & 0x03, 0);
}

#[test]
fn ppu_vblank_swaps_frames() {
    let mut ppu = Ppu::new(false);
    let mut ih = InterruptHandler::new();
    ppu.write(0xff40, 0x91);
    let mut guard = 0;
    while ppu.mode != LcdMode::VBlank {
        ppu.update(4, &mut ih);
        guard += 1;
        assert!(guard < 100_000);
    }
    assert_eq!(ppu.ly, 144);
    assert_ne!(ih.if_port & 0x01, 0);
    assert_eq!(ppu.get_frame_buffer().len(), 160 * 144 * 3);
}

#[test]
fn square1_trigger_with_overflowing_sweep_stays_off() {
    let mut sq = joy::apu::square::Square::new();
    sq.set_x2(0xf3);
    sq.set_x0(0x11);
    sq.set_x3(0xff);
    sq.set_x4(0x87);
    assert!(sq.is_dac_on());
    assert!(!sq.is_on());
    assert_eq!(sq.duty.freq, 0x7ff);
}

#[test]
fn timer_writes_keep_the_sub_counter() {
    let mut timer = joy::timer::Timer::new();
    let mut ih = InterruptHandler::new();
    timer.write(0xff07, 0x05);
    timer.update(12, &mut ih);
    timer.write(0xff05, 0x10);
    timer.write(0xff06, 0x20);
    assert_eq!(timer.timer_clocks, 12);
    timer.update(4, &mut ih);
    assert_eq!(timer.read(0xff05), 0x11);
}
