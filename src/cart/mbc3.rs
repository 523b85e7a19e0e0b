//! MBC3: 7-bit ROM bank, four RAM banks and a real-time clock.
use vstd::prelude::*;
use super::{rom_byte, ram_byte, read_rom};
use crate::bits::lemma_u8_bits;

verus! {

/// Seconds in a day.
pub const SECONDS_PER_DAY: u64 = 86400;

#[verifier::external_type_specification]
#[verifier::external_body]
pub struct ExInstant(time::Instant);

/// Relies on `time::Instant::now`: the current instant of the monotonic clock.
#[verifier::external_body]
fn instant_now() -> (r: time::Instant) {
    time::Instant::now()
}

#[verifier::external_type_specification]
#[verifier::external_body]
pub struct ExDuration(time::Duration);

/// Relies on `time::Instant::elapsed`: the time since the instant. It
/// depends on the clock, so nothing is promised of it.
#[verifier::external_body]
fn elapsed(i: &time::Instant) -> (r: time::Duration) {
    i.elapsed()
}

/// Relies on `time::Duration::whole_seconds`: the duration's whole seconds.
/// A duration is opaque here, so nothing is stated of the number.
#[verifier::external_body]
fn whole_seconds(d: &time::Duration) -> (r: i64) {
    d.whole_seconds()
}

/// Whether A000-BFFF maps RAM or a clock register.
#[derive(Clone, Copy, Debug, PartialEq, Eq, Structural)]
pub enum MapMode {
    Ram,
    Rtc,
}

/// The clock register mapped at A000-BFFF (selected by 0x08-0x0C).
#[derive(Clone, Copy, Debug, PartialEq, Eq, Structural)]
pub enum RtcMode {
    Seconds,
    Minutes,
    Hours,
    DaysLow,
    DaysHigh,
}

/// The latch sequence: 0x00 then 0x01 written to 6000-7FFF.
#[derive(Clone, Copy, Debug, PartialEq, Eq, Structural)]
pub enum Latch {
    Step0,
    Step1,
    Latch0,
    Latch1,
}

impl Latch {
    pub open spec fn latched(&self) -> bool {
        *self == Latch::Latch0 || *self == Latch::Latch1
    }

    pub open spec fn after(&self, data: u8) -> Latch {
        match *self {
            Latch::Step0 => if data == 0x00 {
                Latch::Step1
            } else {
                Latch::Step0
            },
            Latch::Step1 => if data == 0x01 {
                Latch::Latch0
            } else {
                Latch::Step1
            },
            Latch::Latch0 => if data == 0x00 {
                Latch::Latch1
            } else {
                Latch::Latch0
            },
            Latch::Latch1 => Latch::Step0,
        }
    }

    pub fn latch(&self) -> (r: bool)
        ensures
            r == self.latched(),
    {
        match self {
            Latch::Step0 | Latch::Step1 => false,
            Latch::Latch0 | Latch::Latch1 => true,
        }
    }

    pub fn step(&mut self, data: u8)
        ensures
            *final(self) == old(self).after(data),
    {
        *self = match *self {
            Latch::Step0 => if data == 0x00 {
                Latch::Step1
            } else {
                Latch::Step0
            },
            Latch::Step1 => if data == 0x01 {
                Latch::Latch0
            } else {
                Latch::Step1
            },
            Latch::Latch0 => if data == 0x00 {
                Latch::Latch1
            } else {
                Latch::Latch0
            },
            Latch::Latch1 => Latch::Step0,
        };
    }
}

/// The value of a clock register for a time of `t` seconds.
pub open spec fn rtc_register(t: u64, mode: RtcMode, halt: bool) -> u8 {
    let days = t as int / SECONDS_PER_DAY as int;
    match mode {
        RtcMode::Seconds => (t % 60) as u8,
        RtcMode::Minutes => ((t / 60) % 60) as u8,
        RtcMode::Hours => ((t / 3600) % 24) as u8,
        RtcMode::DaysLow => (days % 256) as u8,
        RtcMode::DaysHigh => ((if days > 255 {
            1int
        } else {
            0
        }) + (if halt {
            0x40int
        } else {
            0
        }) + (if days > 511 {
            0x80int
        } else {
            0
        })) as u8,
    }
}

/// Reads a clock register from a time in seconds.
pub fn rtc_read(t: u64, mode: RtcMode, halt: bool) -> (r: u8)
    ensures
        r == rtc_register(t, mode, halt),
{
    let days = t / SECONDS_PER_DAY;
    match mode {
        RtcMode::Seconds => (t % 60) as u8,
        RtcMode::Minutes => ((t / 60) % 60) as u8,
        RtcMode::Hours => ((t / 3600) % 24) as u8,
        RtcMode::DaysLow => (days % 256) as u8,
        RtcMode::DaysHigh => {
            let mut r: u8 = 0;
            if days > 255 {
                r = r + 1;
            }
            if halt {
                r = r + 0x40;
            }
            if days > 511 {
                r = r + 0x80;
            }
            r
        },
    }
}

/// The time, in seconds, after writing `data` to a clock register of a
/// clock reading `t`: the register's field is replaced, the others kept.
pub open spec fn rtc_written(t: u64, mode: RtcMode, data: u8) -> int {
    let days = t as int / SECONDS_PER_DAY as int;
    match mode {
        RtcMode::Seconds => t - t % 60 + data,
        RtcMode::Minutes => t - ((t / 60) % 60) * 60 + data * 60,
        RtcMode::Hours => t - ((t / 3600) % 24) * 3600 + data * 3600,
        RtcMode::DaysLow => (if days >= 256 {
            256 + data
        } else {
            data as int
        }) * SECONDS_PER_DAY + t as int % SECONDS_PER_DAY as int,
        RtcMode::DaysHigh => {
            let t1 = if data % 2 == 1 && days < 256 {
                t + 255 * SECONDS_PER_DAY
            } else if data % 2 == 0 && days > 255 {
                t - 255 * SECONDS_PER_DAY
            } else {
                t as int
            };
            if data / 128 == 0 && days > 511 {
                if t1 >= 511 * SECONDS_PER_DAY {
                    t1 - 511 * SECONDS_PER_DAY
                } else {
                    0
                }
            } else {
                t1
            }
        },
    }
}

/// Writes a clock register of a clock reading `t` seconds; returns the new time.
pub fn rtc_write(t: u64, mode: RtcMode, data: u8) -> (r: u64)
    requires
        t <= 0xffff_ffff_ffff,
    ensures
        r == rtc_written(t, mode, data),
{
    let days = t / SECONDS_PER_DAY;
    match mode {
        RtcMode::Seconds => t - t % 60 + data as u64,
        RtcMode::Minutes => t - ((t / 60) % 60) * 60 + data as u64 * 60,
        RtcMode::Hours => t - ((t / 3600) % 24) * 3600 + data as u64 * 3600,
        RtcMode::DaysLow => {
            let d: u64 = if days >= 256 {
                256 + data as u64
            } else {
                data as u64
            };
            d * SECONDS_PER_DAY + t % SECONDS_PER_DAY
        },
        RtcMode::DaysHigh => {
            let t1: u64 = if data % 2 == 1 && days < 256 {
                t + 255 * SECONDS_PER_DAY
            } else if data % 2 == 0 && days > 255 {
                t - 255 * SECONDS_PER_DAY
            } else {
                t
            };
            if data / 128 == 0 && days > 511 {
                t1.saturating_sub(511 * SECONDS_PER_DAY)
            } else {
                t1
            }
        },
    }
}

/// Largest clock value kept, in seconds; far beyond the 512 days the
/// registers can show.
pub const RTC_LIMIT: u64 = 0xffff_ffff_ffff;

/// A clock value kept within the limit.
pub open spec fn clamp_rtc(w: int) -> u64 {
    if w > RTC_LIMIT {
        RTC_LIMIT
    } else {
        w as u64
    }
}

/// The running clock: the stored time plus the seconds elapsed, clamped at
/// zero and at the limit.
pub open spec fn running_time(current: u64, elapsed: i64) -> u64 {
    let e = if elapsed < 0 {
        0
    } else {
        elapsed as int
    };
    if current + e > RTC_LIMIT {
        RTC_LIMIT
    } else {
        (current + e) as u64
    }
}

fn advance(current: u64, elapsed: i64) -> (r: u64)
    requires
        current <= RTC_LIMIT,
    ensures
        r == running_time(current, elapsed),
        r <= RTC_LIMIT,
{
    let e: u64 = if elapsed < 0 {
        0
    } else {
        elapsed as u64
    };
    if e > RTC_LIMIT - current {
        RTC_LIMIT
    } else {
        current + e
    }
}

/// What a write to the controller does (the contract of `write`).
pub open spec fn written(old: MBC3, new: MBC3, addr: u16, data: u8) -> bool {
    &&& new.max_rom == old.max_rom
    &&& new.ram@.len() == old.ram@.len()
    &&& addr <= 0x1fff ==> new.ram_enable == (data % 16 == 0x0a)
    &&& 0x2000 <= addr <= 0x3fff ==> new.rom_bank == {
                    let b = (data as int % 128) % old.max_rom as int;
                    if b == 0 {
                        1
                    } else {
                        b
                    }
            }
    &&& 0x4000 <= addr <= 0x5fff && data <= 0x03 ==> new.mode == MapMode::Ram && new.ram_bank == data
    &&& 0x4000 <= addr <= 0x5fff && 0x08 <= data <= 0x0c ==> new.mode == MapMode::Rtc
                    && new.rtc_mode == if data == 0x08 {
                    RtcMode::Seconds
            } else if data == 0x09 {
                    RtcMode::Minutes
            } else if data == 0x0a {
                    RtcMode::Hours
            } else if data == 0x0b {
                    RtcMode::DaysLow
            } else {
                    RtcMode::DaysHigh
            }
    &&& 0x6000 <= addr <= 0x7fff ==> new.latch == old.latch.after(data)
    &&& 0xa000 <= addr <= 0xbfff && old.ram_enable && old.mode == MapMode::Ram ==> new.ram@ == if old.ram_bank * 0x2000 + (addr - 0xa000) < old.ram@.len() {
                    old.ram@.update(old.ram_bank * 0x2000 + (addr - 0xa000), data)
            } else {
                    old.ram@
            }
    &&& 0xa000 <= addr <= 0xbfff && old.ram_enable && old.mode == MapMode::Rtc && (old.halt || old.latch.latched()) ==> new.current == {
                    let w = rtc_written(old.current, old.rtc_mode, data);
                    if w > RTC_LIMIT {
                        RTC_LIMIT as int
                    } else {
                        w
                    }
            }
    &&& 0xa000 <= addr <= 0xbfff && old.ram_enable && old.mode == MapMode::Rtc ==> exists|t: u64|
                    old.current <= t <= RTC_LIMIT && new.current == clamp_rtc(
                        #[trigger] rtc_written(t, old.rtc_mode, data),
                    )
    &&& 0xa000 <= addr <= 0xbfff && old.ram_enable && old.mode == MapMode::Rtc
                    && old.rtc_mode == RtcMode::DaysHigh ==> new.halt == ((data / 64) % 2
                    == 1) && new.carry == (data / 128 == 1)
}

pub struct MBC3 {
    pub ram: Vec<u8>,
    pub rom_bank: u8,
    pub ram_bank: u8,
    pub ram_enable: bool,
    pub max_rom: u16,
    pub mode: MapMode,
    pub latch: Latch,
    pub rtc_mode: RtcMode,
    /// Clock time, in seconds, at `instant`.
    pub current: u64,
    pub instant: time::Instant,
    pub carry: bool,
    pub halt: bool,
}

impl MBC3 {
    pub open spec fn wf(&self) -> bool {
        self.max_rom > 0 && self.rom_bank < 0x80 && self.ram_bank < 4 && self.current
            <= RTC_LIMIT
    }

    pub fn new(rom_size: usize, ram_size: usize) -> (r: Self)
        requires
            0x4000 <= rom_size <= 0x80_0000,
        ensures
            r.wf(),
            r.ram@.len() == ram_size,
            r.rom_bank == 1 && r.ram_bank == 0 && !r.ram_enable && r.mode == MapMode::Ram,
            r.latch == Latch::Step0 && r.current == 0 && r.halt && !r.carry,
            r.max_rom == rom_size / 0x4000,
    {
        MBC3 {
            ram: vec![0u8; ram_size],
            rom_bank: 0x01,
            ram_bank: 0x00,
            ram_enable: false,
            max_rom: (rom_size / 0x4000) as u16,
            mode: MapMode::Ram,
            latch: Latch::Step0,
            rtc_mode: RtcMode::Seconds,
            current: 0,
            instant: instant_now(),
            carry: false,
            halt: true,
        }
    }

    /// The clock time seen by reads and writes: the stored time while halted
    /// or latched, else the stored time plus the seconds elapsed.
    fn clock(&self) -> (r: u64)
        requires
            self.wf(),
        ensures
            self.halt || self.latch.latched() ==> r == self.current,
            self.current <= r <= RTC_LIMIT,
    {
        if self.halt || self.latch.latch() {
            self.current
        } else {
            let since = elapsed(&self.instant);
            advance(self.current, whole_seconds(&since))
        }
    }

    /// ROM as MBC1; A000-BFFF maps the selected RAM bank or clock register
    /// while enabled.
    pub fn read(&self, rom: &Vec<u8>, addr: u16) -> (r: u8)
        requires
            self.wf(),
        ensures
            addr <= 0x3fff ==> r == rom_byte(rom@, addr as int),
            0x4000 <= addr <= 0x7fff ==> r == rom_byte(rom@, self.rom_bank * 0x4000 + (addr - 0x4000)),
            0xa000 <= addr <= 0xbfff && !self.ram_enable ==> r == 0xff,
            0xa000 <= addr <= 0xbfff && self.ram_enable && self.mode == MapMode::Ram ==> r
                == ram_byte(self.ram@, self.ram_bank * 0x2000 + (addr - 0xa000)),
            0xa000 <= addr <= 0xbfff && self.ram_enable && self.mode == MapMode::Rtc && (self.halt
                || self.latch.latched()) ==> r == rtc_register(self.current, self.rtc_mode, self.halt),
            0xa000 <= addr <= 0xbfff && self.ram_enable && self.mode == MapMode::Rtc ==> exists|t: u64|
                self.current <= t <= RTC_LIMIT && #[trigger] rtc_register(t, self.rtc_mode, self.halt) == r,
    {
        if addr <= 0x3fff {
            read_rom(rom, addr as usize)
        } else if addr <= 0x7fff {
            read_rom(rom, self.rom_bank as usize * 0x4000 + (addr as usize - 0x4000))
        } else if 0xa000 <= addr && addr <= 0xbfff {
            if self.ram_enable {
                match self.mode {
                    MapMode::Ram => super::read_ram(
                        &self.ram,
                        self.ram_bank as usize * 0x2000 + (addr as usize - 0xa000),
                    ),
                    MapMode::Rtc => {
                        let t = self.clock();
                        let r = rtc_read(t, self.rtc_mode, self.halt);
                        assert(rtc_register(t, self.rtc_mode, self.halt) == r);
                        r
                    },
                }
            } else {
                0xff
            }
        } else {
            0xff
        }
    }

    /// 0000-1FFF: RAM and clock enable; 2000-3FFF: ROM bank (0 selects 1);
    /// 4000-5FFF: RAM bank 0-3 or clock register 0x08-0x0C; 6000-7FFF: latch
    /// sequence; A000-BFFF: RAM or the clock register, which also restarts
    /// the elapsed-time reference.
    pub fn write(&mut self, addr: u16, data: u8)
        requires
            old(self).wf(),
        ensures
            final(self).wf(),
            written(*old(self), *final(self), addr, data),
    {
        proof {
            lemma_u8_bits();
        }
        if addr <= 0x1fff {
            self.ram_enable = data & 0x0f == 0x0a;
        } else if addr <= 0x3fff {
            proof {
                vstd::arithmetic::div_mod::lemma_mod_decreases((data & 0x7f) as nat, self.max_rom as nat);
            }
            let bank = ((data & 0x7f) as u16 % self.max_rom) as u8;
            self.rom_bank = if bank == 0 {
                1
            } else {
                bank
            };
        } else if addr <= 0x5fff {
            if data <= 0x03 {
                self.mode = MapMode::Ram;
                self.ram_bank = data;
            } else if 0x08 <= data && data <= 0x0c {
                self.mode = MapMode::Rtc;
                self.rtc_mode = if data == 0x08 {
                    RtcMode::Seconds
                } else if data == 0x09 {
                    RtcMode::Minutes
                } else if data == 0x0a {
                    RtcMode::Hours
                } else if data == 0x0b {
                    RtcMode::DaysLow
                } else {
                    RtcMode::DaysHigh
                };
            }
        } else if addr <= 0x7fff {
            self.latch.step(data);
        } else if 0xa000 <= addr && addr <= 0xbfff {
            if self.ram_enable {
                match self.mode {
                    MapMode::Ram => {
                        let i = self.ram_bank as usize * 0x2000 + (addr as usize - 0xa000);
                        if i < self.ram.len() {
                            self.ram.set(i, data);
                        }
                    },
                    MapMode::Rtc => {
                        let now = self.clock();
                        self.instant = instant_now();
                        let w = rtc_write(now, self.rtc_mode, data);
                        assert(clamp_rtc(rtc_written(now, self.rtc_mode, data)) == (if w > RTC_LIMIT {
                            RTC_LIMIT
                        } else {
                            w
                        }));
                        self.current = if w > RTC_LIMIT {
                            RTC_LIMIT
                        } else {
                            w
                        };
                        if self.rtc_mode == RtcMode::DaysHigh {
                            self.halt = (data & 0x40) != 0;
                            self.carry = (data & 0x80) != 0;
                        }
                    },
                }
            }
        }
    }

    /// The battery-backed RAM, if the cartridge has any.
    pub fn get_ram(&self) -> (r: Option<&Vec<u8>>)
        ensures
            r is Some <==> self.ram@.len() > 0,
            r matches Some(v) ==> v@ == self.ram@,
    {
        if self.ram.len() > 0 {
            Some(&self.ram)
        } else {
            None
        }
    }
}

} // verus!
