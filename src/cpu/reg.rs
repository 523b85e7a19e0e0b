//! The register file: eight 8-bit registers with 16-bit pairs, SP, PC and flags.
use vstd::prelude::*;

verus! {

/// Z, N, H and C: bits 7, 6, 5 and 4 of F.
#[derive(Clone, Copy, Debug, Default, PartialEq, Eq, Structural)]
pub struct Flag {
    pub zero: bool,
    pub substract: bool,
    pub half_carry: bool,
    pub carry: bool,
}

/// F as a byte: the four flags in the high nibble, the low nibble zero.
pub open spec fn flag_byte(f: Flag) -> u8 {
    ((if f.zero {
        0x80int
    } else {
        0
    }) + (if f.substract {
        0x40int
    } else {
        0
    }) + (if f.half_carry {
        0x20int
    } else {
        0
    }) + (if f.carry {
        0x10int
    } else {
        0
    })) as u8
}

/// The flags that a byte of F holds (its low nibble is ignored).
pub open spec fn flag_of(f: u8) -> Flag {
    Flag {
        zero: f / 128 == 1,
        substract: (f / 64) % 2 == 1,
        half_carry: (f / 32) % 2 == 1,
        carry: (f / 16) % 2 == 1,
    }
}

impl Flag {
    /// All four flags cleared.
    pub fn clear(&mut self)
        ensures
            *final(self) == (Flag { zero: false, substract: false, half_carry: false, carry: false }),
    {
        self.zero = false;
        self.substract = false;
        self.half_carry = false;
        self.carry = false;
    }

    pub fn to_u8(&self) -> (r: u8)
        ensures
            r == flag_byte(*self),
            r % 16 == 0,
    {
        let mut r: u8 = 0;
        if self.zero {
            r = r + 0x80;
        }
        if self.substract {
            r = r + 0x40;
        }
        if self.half_carry {
            r = r + 0x20;
        }
        if self.carry {
            r = r + 0x10;
        }
        r
    }

    pub fn from_u8(f: u8) -> (r: Flag)
        ensures
            r == flag_of(f),
    {
        Flag {
            zero: f / 128 == 1,
            substract: (f / 64) % 2 == 1,
            half_carry: (f / 32) % 2 == 1,
            carry: (f / 16) % 2 == 1,
        }
    }
}

#[derive(Clone, Copy, Debug, PartialEq, Eq, Structural)]
pub struct Reg {
    pub a: u8,
    pub b: u8,
    pub c: u8,
    pub d: u8,
    pub e: u8,
    pub h: u8,
    pub l: u8,
    pub f: Flag,
    pub sp: u16,
    pub pc: u16,
}

/// A register pair: `hi` in the high byte.
pub open spec fn pair(hi: u8, lo: u8) -> u16 {
    (hi * 256 + lo) as u16
}

impl Reg {
    pub fn new() -> (r: Reg)
        ensures
            r.a == 0 && r.b == 0 && r.c == 0 && r.d == 0 && r.e == 0 && r.h == 0 && r.l == 0,
            r.sp == 0 && r.pc == 0,
            r.f == flag_of(0),
    {
        Reg {
            a: 0,
            b: 0,
            c: 0,
            d: 0,
            e: 0,
            h: 0,
            l: 0,
            f: Flag { zero: false, substract: false, half_carry: false, carry: false },
            sp: 0,
            pc: 0,
        }
    }

    /// AF with F's low nibble always zero.
    pub fn af(&self) -> (r: u16)
        ensures
            r == pair(self.a, flag_byte(self.f)),
            r % 16 == 0,
    {
        self.a as u16 * 256 + self.f.to_u8() as u16
    }

    /// Loads A and the flags from a word; F's low nibble is dropped.
    pub fn set_af(&mut self, data: u16)
        ensures
            *final(self) == (Reg { a: (data / 256) as u8, f: flag_of((data % 256) as u8), ..*old(self) }),
    {
        self.a = (data / 256) as u8;
        self.f = Flag::from_u8((data % 256) as u8);
    }

    pub fn bc(&self) -> (r: u16)
        ensures
            r == pair(self.b, self.c),
    {
        self.b as u16 * 256 + self.c as u16
    }

    pub fn de(&self) -> (r: u16)
        ensures
            r == pair(self.d, self.e),
    {
        self.d as u16 * 256 + self.e as u16
    }

    pub fn hl(&self) -> (r: u16)
        ensures
            r == pair(self.h, self.l),
    {
        self.h as u16 * 256 + self.l as u16
    }

    pub fn set_bc(&mut self, v: u16)
        ensures
            *final(self) == (Reg { b: (v / 256) as u8, c: (v % 256) as u8, ..*old(self) }),
    {
        self.b = (v / 256) as u8;
        self.c = (v % 256) as u8;
    }

    pub fn set_de(&mut self, v: u16)
        ensures
            *final(self) == (Reg { d: (v / 256) as u8, e: (v % 256) as u8, ..*old(self) }),
    {
        self.d = (v / 256) as u8;
        self.e = (v % 256) as u8;
    }

    pub fn set_hl(&mut self, v: u16)
        ensures
            *final(self) == (Reg { h: (v / 256) as u8, l: (v % 256) as u8, ..*old(self) }),
    {
        self.h = (v / 256) as u8;
        self.l = (v % 256) as u8;
    }
}

/// Whatever word is loaded into AF (as `POP AF` does), AF then reads back
/// with a low nibble of zero.
pub proof fn lemma_pop_af_low_nibble(r: Reg, data: u16)
    ensures
        ({
            let r2 = Reg { a: (data / 256) as u8, f: flag_of((data % 256) as u8), ..r };
            pair(r2.a, flag_byte(r2.f)) % 16 == 0
        }),
{
}

} // verus!
