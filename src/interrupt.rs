//! The interrupt controller: the IE and IF registers and interrupt priority.
use vstd::prelude::*;
use crate::bits::lemma_u8_bits;

verus! {

/// Interrupt enable register.
pub const IE_PORT: u16 = 0xffff;

/// Interrupt flag register.
pub const IF_PORT: u16 = 0xff0f;

/// The five interrupt sources, highest priority first.
#[derive(Clone, Copy, Debug, PartialEq, Eq, Structural)]
pub enum Interrupt {
    VBlank,
    Lcd,
    Timer,
    Serial,
    Joypad,
}

/// Mask of an interrupt in IE / IF.
pub open spec fn interrupt_mask(i: Interrupt) -> u8 {
    match i {
        Interrupt::VBlank => 0x01,
        Interrupt::Lcd => 0x02,
        Interrupt::Timer => 0x04,
        Interrupt::Serial => 0x08,
        Interrupt::Joypad => 0x10,
    }
}

/// Index of the lowest bit set in both masks, among the five interrupt bits.
pub open spec fn lowest_pending(p: u8) -> Option<nat> {
    if p & 0x01 != 0 {
        Some(0)
    } else if p & 0x02 != 0 {
        Some(1)
    } else if p & 0x04 != 0 {
        Some(2)
    } else if p & 0x08 != 0 {
        Some(3)
    } else if p & 0x10 != 0 {
        Some(4)
    } else {
        None
    }
}

/// The bit of index `n` (`n < 5`).
pub open spec fn bit_of(n: nat) -> u8 {
    if n == 0 {
        0x01
    } else if n == 1 {
        0x02
    } else if n == 2 {
        0x04
    } else if n == 3 {
        0x08
    } else {
        0x10
    }
}

fn mask_of(i: Interrupt) -> (r: u8)
    ensures
        r == interrupt_mask(i),
{
    match i {
        Interrupt::VBlank => 0x01,
        Interrupt::Lcd => 0x02,
        Interrupt::Timer => 0x04,
        Interrupt::Serial => 0x08,
        Interrupt::Joypad => 0x10,
    }
}

/// IE and IF, each holding five meaningful bits.
pub struct InterruptHandler {
    pub ie_port: u8,
    pub if_port: u8,
}

impl InterruptHandler {
    /// Both registers hold only the five interrupt bits.
    pub open spec fn wf(&self) -> bool {
        self.ie_port < 0x20 && self.if_port < 0x20
    }

    /// Whether an interrupt is both enabled and requested.
    pub open spec fn pending(&self) -> bool {
        self.ie_port & self.if_port != 0
    }

    pub fn new() -> (r: Self)
        ensures
            r.wf(),
            r.ie_port == 0,
            r.if_port == 0,
    {
        InterruptHandler { ie_port: 0, if_port: 0 }
    }

    /// True when some interrupt is both enabled and requested.
    pub fn has_interrupts(&self) -> (r: bool)
        ensures
            r == self.pending(),
    {
        self.ie_port & self.if_port != 0
    }

    pub fn interrupt_enabled(&self, interrupt: Interrupt) -> (r: bool)
        ensures
            r == (self.ie_port & interrupt_mask(interrupt) != 0),
    {
        self.ie_port & mask_of(interrupt) != 0
    }

    /// Sets the interrupt's bit in IF.
    pub fn request_interrupt(&mut self, interrupt: Interrupt)
        requires
            old(self).wf(),
        ensures
            final(self).wf(),
            final(self).ie_port == old(self).ie_port,
            final(self).if_port == old(self).if_port | interrupt_mask(interrupt),
    {
        let m = mask_of(interrupt);
        let old_if = self.if_port;
        proof {
            lemma_or_small(old_if, m);
        }
        self.if_port = old_if | m;
    }

    /// Picks the enabled and requested interrupt of lowest bit, clears it
    /// from IF and returns its vector `0x40 + 8 * i`.
    pub fn service_interrupt(&mut self) -> (r: Option<u16>)
        requires
            old(self).wf(),
        ensures
            final(self).wf(),
            final(self).ie_port == old(self).ie_port,
            match lowest_pending(old(self).ie_port & old(self).if_port) {
                None => r is None && final(self).if_port == old(self).if_port,
                Some(n) => r == Some((0x40 + 8 * n) as u16) && final(self).if_port
                    == old(self).if_port & !bit_of(n),
            },
    {
        proof {
            lemma_u8_bits();
        }
        let p = self.ie_port & self.if_port;
        let old_if = self.if_port;
        if p & 0x01 != 0 {
            self.if_port = old_if & !0x01u8;
            Some(0x40)
        } else if p & 0x02 != 0 {
            self.if_port = old_if & !0x02u8;
            Some(0x48)
        } else if p & 0x04 != 0 {
            self.if_port = old_if & !0x04u8;
            Some(0x50)
        } else if p & 0x08 != 0 {
            self.if_port = old_if & !0x08u8;
            Some(0x58)
        } else if p & 0x10 != 0 {
            self.if_port = old_if & !0x10u8;
            Some(0x60)
        } else {
            None
        }
    }

    /// Reads IE, or IF with its three unused bits set.
    pub fn read(&self, addr: u16) -> (r: u8)
        requires
            addr == IE_PORT || addr == IF_PORT,
        ensures
            addr == IE_PORT ==> r == self.ie_port,
            addr == IF_PORT ==> r == self.if_port | 0xe0,
    {
        if addr == IE_PORT {
            self.ie_port
        } else {
            self.if_port | 0xe0
        }
    }

    /// Writes IE or IF, keeping only the five interrupt bits.
    pub fn write(&mut self, addr: u16, data: u8)
        requires
            old(self).wf(),
            addr == IE_PORT || addr == IF_PORT,
        ensures
            final(self).wf(),
            addr == IE_PORT ==> final(self).ie_port == data % 32 && final(self).if_port
                == old(self).if_port,
            addr == IF_PORT ==> final(self).if_port == data % 32 && final(self).ie_port
                == old(self).ie_port,
    {
        proof {
            lemma_u8_bits();
        }
        if addr == IE_PORT {
            self.ie_port = data & 0x1f;
        } else {
            self.if_port = data & 0x1f;
        }
    }
}

/// An enabled and requested interrupt always has a lowest one to service.
pub proof fn lemma_pending_has_lowest(ih: InterruptHandler)
    requires
        ih.wf(),
        ih.pending(),
    ensures
        lowest_pending(ih.ie_port & ih.if_port) is Some,
{
    lemma_u8_bits();
    let p = ih.ie_port & ih.if_port;
    assert(p < 0x20);
    assert(p & 0x01 != 0 || p & 0x02 != 0 || p & 0x04 != 0 || p & 0x08 != 0 || p & 0x10 != 0)
        by (bit_vector)
        requires
            p != 0,
            p < 0x20,
    ;
}

proof fn lemma_or_small(x: u8, m: u8)
    requires
        x < 0x20,
        m == 1 || m == 2 || m == 4 || m == 8 || m == 16,
    ensures
        (x | m) < 0x20,
{
    assert((x | m) < 0x20) by (bit_vector)
        requires
            x < 0x20,
            m == 1 || m == 2 || m == 4 || m == 8 || m == 16,
    ;
}

} // verus!
