//! Cartridges: the header, the ROM image and the bank controller family.
use vstd::prelude::*;

pub mod mbc0;
pub mod mbc1;
pub mod mbc2;
pub mod mbc3;
pub mod mbc5;

use mbc0::MBC0;
use mbc1::MBC1;
use mbc2::MBC2;
use mbc3::MBC3;
use mbc5::MBC5;

verus! {

/// A ROM byte, or 0xff past the end of the image.
pub open spec fn rom_byte(rom: Seq<u8>, i: int) -> u8 {
    if 0 <= i < rom.len() {
        rom[i]
    } else {
        0xff
    }
}

/// A RAM byte, or 0xff past the end of the RAM.
pub open spec fn ram_byte(ram: Seq<u8>, i: int) -> u8 {
    if 0 <= i < ram.len() {
        ram[i]
    } else {
        0xff
    }
}

pub fn read_rom(rom: &Vec<u8>, i: usize) -> (r: u8)
    ensures
        r == rom_byte(rom@, i as int),
{
    if i < rom.len() {
        rom[i]
    } else {
        0xff
    }
}

pub fn read_ram(ram: &Vec<u8>, i: usize) -> (r: u8)
    ensures
        r == ram_byte(ram@, i as int),
{
    if i < ram.len() {
        ram[i]
    } else {
        0xff
    }
}

/// Relies on `String::from_utf8`: it succeeds exactly on valid UTF-8, and
/// an ASCII string converts byte for byte.
#[verifier::external_body]
fn utf8_string(bytes: Vec<u8>) -> (r: Option<String>)
    ensures
        (forall|i: int| 0 <= i < bytes@.len() ==> #[trigger] bytes@[i] < 0x80) ==> r is Some
            && r->Some_0@ == bytes@.map_values(|b: u8| b as char),
{
    String::from_utf8(bytes).ok()
}

/// Why a ROM image cannot be used.
#[derive(Clone, Copy, Debug, PartialEq, Eq, Structural)]
pub enum CartridgeError {
    /// The image is shorter than its header.
    HeaderTooShort,
    /// The ROM size code (0x148) is above 8.
    BadRomSize(u8),
    /// The RAM size code (0x149) is above 5.
    BadRamSize(u8),
    /// The image length differs from the size its header gives.
    SizeMismatch,
    /// The cartridge type (0x147) names a controller that is not emulated.
    UnsupportedMbc(u8),
}

/// The bank controllers, one variant each.
pub enum Mbc {
    Mbc0(MBC0),
    Mbc1(MBC1),
    Mbc2(MBC2),
    Mbc3(MBC3),
    Mbc5(MBC5),
}

impl Mbc {
    /// The ROM bank mapped at 4000-7FFF.
    pub open spec fn rom_bank(&self) -> int {
        match self {
            Mbc::Mbc0(_) => 1,
            Mbc::Mbc1(m) => m.rom_bank as int,
            Mbc::Mbc2(m) => m.rom_bank as int,
            Mbc::Mbc3(m) => m.rom_bank as int,
            Mbc::Mbc5(m) => m.rom_bank as int,
        }
    }

    /// Whether cartridge RAM is enabled (never without a controller).
    pub open spec fn ram_enabled(&self) -> bool {
        match self {
            Mbc::Mbc0(_) => false,
            Mbc::Mbc1(m) => m.ram_enable,
            Mbc::Mbc2(m) => m.ram_enable,
            Mbc::Mbc3(m) => m.ram_enable,
            Mbc::Mbc5(m) => m.ram_enable,
        }
    }

    /// The cartridge RAM (none without a controller).
    pub open spec fn ram_seq(&self) -> Seq<u8> {
        match self {
            Mbc::Mbc0(_) => Seq::empty(),
            Mbc::Mbc1(m) => m.ram@,
            Mbc::Mbc2(m) => m.ram@,
            Mbc::Mbc3(m) => m.ram@,
            Mbc::Mbc5(m) => m.ram@,
        }
    }

    pub open spec fn wf(&self) -> bool {
        match self {
            Mbc::Mbc0(_) => true,
            Mbc::Mbc1(m) => m.wf(),
            Mbc::Mbc2(m) => m.wf(),
            Mbc::Mbc3(m) => m.wf(),
            Mbc::Mbc5(m) => m.wf(),
        }
    }
}

/// ROM size for a header code: 32 KiB shifted left by the code.
pub open spec fn rom_size_of(code: u8) -> int {
    0x8000 * crate::apu::lfsr::shift_mul(code as int)
}

/// RAM size for a header code.
pub open spec fn ram_size_of(code: u8) -> int {
    if code == 0 {
        0
    } else if code == 1 {
        0x800
    } else if code == 2 {
        0x2000
    } else if code == 3 {
        0x8000
    } else if code == 4 {
        0x2_0000
    } else {
        0x1_0000
    }
}

/// Whether a cartridge type code names an emulated controller.
pub open spec fn supported_type(t: u8) -> bool {
    t == 0x00 || (0x01 <= t <= 0x03) || (0x05 <= t <= 0x06) || (0x0f <= t <= 0x13) || (0x19 <= t
        <= 0x1e)
}

/// The outcome of loading an image, as the header decides it.
pub open spec fn load_error(rom: Seq<u8>) -> Option<CartridgeError> {
    if rom.len() < 0x150 {
        Some(CartridgeError::HeaderTooShort)
    } else if rom[0x148] > 8 {
        Some(CartridgeError::BadRomSize(rom[0x148]))
    } else if rom[0x149] > 5 {
        Some(CartridgeError::BadRamSize(rom[0x149]))
    } else if rom_size_of(rom[0x148]) != rom.len() {
        Some(CartridgeError::SizeMismatch)
    } else if !supported_type(rom[0x147]) {
        Some(CartridgeError::UnsupportedMbc(rom[0x147]))
    } else {
        None
    }
}

/// The title bytes: 0x134-0x142 up to the first NUL.
pub open spec fn title_bytes(rom: Seq<u8>) -> Seq<u8> {
    let field = rom.subrange(0x134, 0x143);
    let n = if exists|i: int| 0 <= i < 15 && field[i] == 0 {
        choose|i: int| 0 <= i < 15 && field[i] == 0 && forall|j: int| 0 <= j < i ==> field[j] != 0
    } else {
        15
    };
    field.subrange(0, n)
}

/// The controller that a cartridge type code selects.
pub open spec fn controller_for(t: u8, m: Mbc) -> bool {
    if t == 0x00 {
        m is Mbc0
    } else if 0x01 <= t <= 0x03 {
        m is Mbc1
    } else if 0x05 <= t <= 0x06 {
        m is Mbc2
    } else if 0x0f <= t <= 0x13 {
        m is Mbc3
    } else {
        m is Mbc5
    }
}

pub struct Cartridge {
    pub rom: Vec<u8>,
    pub mbc: Mbc,
    pub entry_point: u16,
    pub title: String,
    pub cgb: bool,
}

impl Cartridge {
    pub open spec fn wf(&self) -> bool {
        self.mbc.wf()
    }

    /// Parses the header of a ROM image and builds its controller. Fails
    /// exactly when `load_error` names a reason.
    #[verifier::rlimit(80)]
    pub fn from_rom(rom: Vec<u8>) -> (r: Result<Cartridge, CartridgeError>)
        ensures
            match load_error(rom@) {
                Some(e) => r == Err::<Cartridge, CartridgeError>(e),
                None => r is Ok && {
                    let c = r->Ok_0;
                    &&& c.wf()
                    &&& c.rom@ == rom@
                    &&& c.entry_point == 0x100
                    &&& c.cgb == (rom@[0x143] == 0x80 || rom@[0x143] == 0xc0)
                    &&& controller_for(rom@[0x147], c.mbc)
                    &&& c.mbc.ram_seq().len() == match c.mbc {
                        Mbc::Mbc0(_) => 0,
                        Mbc::Mbc2(_) => 0x200,
                        _ => ram_size_of(rom@[0x149]),
                    }
                    &&& (forall|i: int| 0 <= i < title_bytes(rom@).len() ==> #[trigger] title_bytes(rom@)[i]
                        < 0x80) ==> c.title@ == title_bytes(rom@).map_values(|b: u8| b as char)
                },
            },
    {
        if rom.len() < 0x150 {
            return Err(CartridgeError::HeaderTooShort);
        }
        let rom_code = rom[0x148];
        let ram_code = rom[0x149];
        if rom_code > 8 {
            return Err(CartridgeError::BadRomSize(rom_code));
        }
        if ram_code > 5 {
            return Err(CartridgeError::BadRamSize(ram_code));
        }
        let mut rom_size: usize = 0x8000;
        let mut k: u8 = 0;
        while k < rom_code
            invariant
                k <= rom_code <= 8,
                rom_size == 0x8000 * crate::apu::lfsr::shift_mul(k as int),
                rom_size <= 0x8000 * 256,
            decreases rom_code - k,
        {
            proof {
                crate::apu::lfsr::lemma_shift_mul_bound(k as int);
            }
            rom_size = rom_size * 2;
            k = k + 1;
        }
        let ram_size: usize = if ram_code == 0 {
            0
        } else if ram_code == 1 {
            0x800
        } else if ram_code == 2 {
            0x2000
        } else if ram_code == 3 {
            0x8000
        } else if ram_code == 4 {
            0x2_0000
        } else {
            0x1_0000
        };
        if rom_size != rom.len() {
            return Err(CartridgeError::SizeMismatch);
        }
        let cart_type = rom[0x147];
        let mbc = if cart_type == 0x00 {
            Mbc::Mbc0(MBC0::new())
        } else if 0x01 <= cart_type && cart_type <= 0x03 {
            Mbc::Mbc1(MBC1::new(rom_size, ram_size))
        } else if 0x05 <= cart_type && cart_type <= 0x06 {
            Mbc::Mbc2(MBC2::new(rom_size))
        } else if 0x0f <= cart_type && cart_type <= 0x13 {
            Mbc::Mbc3(MBC3::new(rom_size, ram_size))
        } else if 0x19 <= cart_type && cart_type <= 0x1e {
            Mbc::Mbc5(MBC5::new(rom_size, ram_size))
        } else {
            return Err(CartridgeError::UnsupportedMbc(cart_type));
        };
        let mut name: Vec<u8> = Vec::new();
        let mut i: usize = 0x134;
        while i <= 0x142 && rom[i] != 0
            invariant
                0x134 <= i <= 0x143,
                rom@.len() >= 0x150,
                name@ == rom@.subrange(0x134, i as int),
                forall|k: int| 0x134 <= k < i ==> #[trigger] rom@[k] != 0,
            decreases 0x143 - i,
        {
            name.push(rom[i]);
            i = i + 1;
            proof {
                assert(name@ =~= rom@.subrange(0x134, i as int));
            }
        }
        proof {
            lemma_title(rom@, i as int, name@);
        }
        let title = match utf8_string(name) {
            Some(s) => s,
            None => "unknown".to_owned(),
        };
        let cgb_flag = rom[0x143];
        Ok(Cartridge { rom, mbc, entry_point: 0x100, title, cgb: cgb_flag == 0xc0 || cgb_flag == 0x80 })
    }

    /// Reads ROM (0000-7FFF) or cartridge RAM (A000-BFFF) through the controller.
    pub fn read(&self, addr: u16) -> (r: u8)
        requires
            self.wf(),
        ensures
            addr <= 0x3fff ==> r == rom_byte(self.rom@, addr as int),
            0x4000 <= addr <= 0x7fff ==> r == rom_byte(
                self.rom@,
                self.mbc.rom_bank() * 0x4000 + (addr - 0x4000),
            ),
            0xa000 <= addr <= 0xbfff && !self.mbc.ram_enabled() ==> r == 0xff,
            self.mbc matches Mbc::Mbc1(m) ==> 0xa000 <= addr <= 0xbfff && m.ram_enable ==> r == ram_byte(
                m.ram@,
                m.ram_bank * 0x2000 + (addr - 0xa000),
            ),
            self.mbc matches Mbc::Mbc2(m) ==> 0xa000 <= addr <= 0xa1ff && m.ram_enable ==> r == m.ram@[addr
                - 0xa000] % 16,
            self.mbc matches Mbc::Mbc3(m) ==> 0xa000 <= addr <= 0xbfff && m.ram_enable && m.mode
                == mbc3::MapMode::Ram ==> r == ram_byte(m.ram@, m.ram_bank * 0x2000 + (addr - 0xa000)),
            self.mbc matches Mbc::Mbc5(m) ==> 0xa000 <= addr <= 0xbfff && m.ram_enable ==> r == ram_byte(
                m.ram@,
                m.ram_bank * 0x2000 + (addr - 0xa000),
            ),
    {
        match &self.mbc {
            Mbc::Mbc0(m) => m.read(&self.rom, addr),
            Mbc::Mbc1(m) => m.read(&self.rom, addr),
            Mbc::Mbc2(m) => m.read(&self.rom, addr),
            Mbc::Mbc3(m) => m.read(&self.rom, addr),
            Mbc::Mbc5(m) => m.read(&self.rom, addr),
        }
    }

    /// Hands a write to the controller; the ROM image never changes.
    pub fn write(&mut self, addr: u16, data: u8)
        requires
            old(self).wf(),
        ensures
            final(self).wf(),
            final(self).rom == old(self).rom,
            final(self).cgb == old(self).cgb,
            final(self).title == old(self).title,
            final(self).entry_point == old(self).entry_point,
            old(self).mbc is Mbc0 ==> final(self).mbc == old(self).mbc,
            old(self).mbc matches Mbc::Mbc1(m) ==> (final(self).mbc matches Mbc::Mbc1(n) && mbc1::written(
                m,
                n,
                addr,
                data,
            )),
            old(self).mbc matches Mbc::Mbc2(m) ==> (final(self).mbc matches Mbc::Mbc2(n) && mbc2::written(
                m,
                n,
                addr,
                data,
            )),
            old(self).mbc matches Mbc::Mbc3(m) ==> (final(self).mbc matches Mbc::Mbc3(n) && mbc3::written(
                m,
                n,
                addr,
                data,
            )),
            old(self).mbc matches Mbc::Mbc5(m) ==> (final(self).mbc matches Mbc::Mbc5(n) && mbc5::written(
                m,
                n,
                addr,
                data,
            )),
    {
        match &mut self.mbc {
            Mbc::Mbc0(_) => {},
            Mbc::Mbc1(m) => m.write(addr, data),
            Mbc::Mbc2(m) => m.write(addr, data),
            Mbc::Mbc3(m) => m.write(addr, data),
            Mbc::Mbc5(m) => m.write(addr, data),
        }
    }

    pub fn entry_point(&self) -> (r: u16)
        ensures
            r == self.entry_point,
    {
        self.entry_point
    }

    pub fn title(&self) -> (r: String)
        ensures
            r@ == self.title@,
    {
        self.title.clone()
    }

    pub fn cgb(&self) -> (r: bool)
        ensures
            r == self.cgb,
    {
        self.cgb
    }

    /// The battery-backed RAM to save, if the cartridge has any.
    pub fn ram(&self) -> (r: Option<&Vec<u8>>)
        requires
            self.wf(),
        ensures
            r is Some <==> self.mbc.ram_seq().len() > 0,
            r matches Some(v) ==> v@ == self.mbc.ram_seq(),
    {
        match &self.mbc {
            Mbc::Mbc0(_) => None,
            Mbc::Mbc1(m) => m.get_ram(),
            Mbc::Mbc2(m) => m.get_ram(),
            Mbc::Mbc3(m) => m.get_ram(),
            Mbc::Mbc5(m) => m.get_ram(),
        }
    }

    /// Fills the cartridge RAM from saved bytes, as far as both reach.
    pub fn load_ram(&mut self, data: &Vec<u8>)
        requires
            old(self).wf(),
        ensures
            final(self).wf(),
            final(self).rom == old(self).rom,
            final(self).cgb == old(self).cgb,
            final(self).mbc.ram_seq().len() == old(self).mbc.ram_seq().len(),
            forall|i: int|
                0 <= i < final(self).mbc.ram_seq().len() ==> #[trigger] final(self).mbc.ram_seq()[i]
                    == if i < data@.len() {
                    data@[i]
                } else {
                    old(self).mbc.ram_seq()[i]
                },
    {
        match &mut self.mbc {
            Mbc::Mbc0(_) => {},
            Mbc::Mbc1(m) => copy_prefix(&mut m.ram, data),
            Mbc::Mbc2(m) => copy_prefix(&mut m.ram, data),
            Mbc::Mbc3(m) => copy_prefix(&mut m.ram, data),
            Mbc::Mbc5(m) => copy_prefix(&mut m.ram, data),
        }
    }
}

proof fn lemma_title(rom: Seq<u8>, i: int, name: Seq<u8>)
    requires
        rom.len() >= 0x150,
        0x134 <= i <= 0x143,
        name == rom.subrange(0x134, i),
        forall|k: int| 0x134 <= k < i ==> #[trigger] rom[k] != 0,
        i == 0x143 || rom[i] == 0,
    ensures
        name == title_bytes(rom),
{
    let field = rom.subrange(0x134, 0x143);
    if exists|j: int| 0 <= j < 15 && field[j] == 0 {
        let j = choose|j: int| 0 <= j < 15 && field[j] == 0 && forall|k: int| 0 <= k < j ==> field[k] != 0;
        assert(exists|j: int| 0 <= j < 15 && field[j] == 0 && forall|k: int| 0 <= k < j ==> field[k] != 0) by {
            assert(field[i - 0x134] == 0);
            assert(forall|k: int| 0 <= k < i - 0x134 ==> field[k] != 0) by {
                assert forall|k: int| 0 <= k < i - 0x134 implies field[k] != 0 by {
                    assert(rom[0x134 + k] != 0);
                }
            }
        }
        assert(j == i - 0x134) by {
            if j < i - 0x134 {
                assert(rom[0x134 + j] != 0);
            }
            if j > i - 0x134 {
                assert(field[i - 0x134] == 0);
            }
        }
        assert(name =~= field.subrange(0, j));
    } else {
        if i < 0x143 {
            assert(field[i - 0x134] == 0);
        }
        assert(name =~= field.subrange(0, 15));
    }
}

/// Copies the common prefix of `src` into `dst`; the length of `dst` is kept.
pub fn copy_prefix(dst: &mut Vec<u8>, src: &Vec<u8>)
    ensures
        final(dst)@.len() == old(dst)@.len(),
        forall|i: int|
            0 <= i < final(dst)@.len() ==> #[trigger] final(dst)@[i] == if i < src@.len() {
                src@[i]
            } else {
                old(dst)@[i]
            },
{
    let mut i: usize = 0;
    while i < dst.len() && i < src.len()
        invariant
            i <= dst@.len(),
            i <= src@.len(),
            dst@.len() == old(dst)@.len(),
            forall|k: int|
                0 <= k < dst@.len() ==> #[trigger] dst@[k] == if k < i {
                    src@[k]
                } else {
                    old(dst)@[k]
                },
        decreases dst@.len() - i,
    {
        dst.set(i, src[i]);
        i = i + 1;
    }
}

} // verus!
