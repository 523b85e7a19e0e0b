//! A Game Boy / Game Boy Color emulator core: CPU, memory bus, picture and
//! audio units, timer, joypad and cartridge bank controllers.
use vstd::prelude::*;

mod bits;
pub mod interrupt;
pub mod timer;
pub mod joypad;
pub mod mem;
pub mod ppu;
pub mod apu;
pub mod bus;
pub mod cart;
pub mod cpu;
pub mod gameboy;

verus! {

/// LCD screen width.
pub const GB_LCD_WIDTH: usize = 160;

/// LCD screen height.
pub const GB_LCD_HEIGHT: usize = 144;

/// CPU clock speed: 4.194304 MHz.
pub const GB_CLOCK_SPEED: u32 = 4_194_304;

/// Emulator update rate in frames per second.
pub const GB_DEVICE_FPS: u32 = 60;

/// Divider applied to the audio unit's clock (1, 2 or 4); a bigger value lowers the update rate.
pub const AUDIO_FREQ_DIVIDER: u32 = 2;

} // verus!
