//! The divider and the programmable timer (DIV, TIMA, TMA, TAC).
use vstd::prelude::*;
use crate::bits::lemma_u8_bits;
use crate::interrupt::{Interrupt, InterruptHandler};

verus! {

/// Divider register.
pub const DIV_PORT: u16 = 0xff04;

/// Timer counter.
pub const TIMA_PORT: u16 = 0xff05;

/// Timer modulo.
pub const TMA_PORT: u16 = 0xff06;

/// Timer control.
pub const TAC_PORT: u16 = 0xff07;

/// T-cycles per TIMA increment for each clock select value of TAC.
pub open spec fn frequency_of(tac: u8) -> u16 {
    let sel = tac % 4;
    if sel == 0 {
        1024
    } else if sel == 1 {
        16
    } else if sel == 2 {
        64
    } else {
        256
    }
}

/// TIMA after `k` increments: on overflow from 0xff it reloads from TMA.
pub open spec fn tima_after(tima: u8, tma: u8, k: nat) -> u8
    decreases k,
{
    if k == 0 {
        tima
    } else {
        let t = tima_after(tima, tma, (k - 1) as nat);
        if t == 0xff {
            tma
        } else {
            (t + 1) as u8
        }
    }
}

/// Whether one of the first `k` increments overflowed.
pub open spec fn overflowed(tima: u8, tma: u8, k: nat) -> bool
    decreases k,
{
    if k == 0 {
        false
    } else {
        overflowed(tima, tma, (k - 1) as nat) || tima_after(tima, tma, (k - 1) as nat) == 0xff
    }
}

/// The timer's registers after `clocks` T-cycles (what `update` does to them).
pub open spec fn advanced(old: Timer, new: Timer, clocks: int) -> bool {
    &&& new.div_clocks == (old.div_clocks + clocks) % 0x10000
    &&& new.tma == old.tma && new.tac == old.tac
    &&& !old.timer_enabled ==> new.tima == old.tima && new.timer_clocks == old.timer_clocks
    &&& old.timer_enabled ==> new.timer_clocks == (old.timer_clocks + clocks) % old.frequency as int
        && new.tima == tima_after(
        old.tima,
        old.tma,
        ((old.timer_clocks + clocks) / old.frequency as int) as nat,
    )
}

pub struct Timer {
    pub div_clocks: u16,
    pub timer_clocks: u16,
    pub tima: u8,
    pub tma: u8,
    pub tac: u8,
    pub frequency: u16,
    pub timer_enabled: bool,
}

impl Timer {
    /// The period follows TAC and the sub-counter stays below it.
    pub open spec fn wf(&self) -> bool {
        &&& self.frequency == frequency_of(self.tac)
        &&& self.timer_enabled == ((self.tac / 4) % 2 == 1)
        &&& self.timer_clocks < 1024
    }

    pub fn new() -> (r: Self)
        ensures
            r.wf(),
            r.div_clocks == 0 && r.tima == 0 && r.tma == 0 && r.tac == 0 && r.timer_clocks == 0,
    {
        Timer {
            div_clocks: 0,
            timer_clocks: 0,
            tima: 0,
            tma: 0,
            tac: 0,
            frequency: 1024,
            timer_enabled: false,
        }
    }

    /// Advances the timer by `clocks` T-cycles: DIV's counter always, TIMA
    /// once per period while enabled, reloading from TMA and requesting the
    /// timer interrupt on overflow.
    pub fn update(&mut self, clocks: u32, interrupts: &mut InterruptHandler)
        requires
            old(self).wf(),
            old(interrupts).wf(),
        ensures
            final(self).wf(),
            final(interrupts).wf(),
            final(interrupts).ie_port == old(interrupts).ie_port,
            final(self).div_clocks == (old(self).div_clocks + clocks) % 0x10000,
            advanced(*old(self), *final(self), clocks as int),
            final(self).tma == old(self).tma && final(self).tac == old(self).tac,
            !old(self).timer_enabled ==> final(self).tima == old(self).tima,
            !old(self).timer_enabled ==> final(interrupts).if_port == old(interrupts).if_port,
            !old(self).timer_enabled ==> final(self).timer_clocks == old(self).timer_clocks,
            old(self).timer_enabled ==> {
                let total = old(self).timer_clocks + clocks;
                let k = (total / old(self).frequency as int) as nat;
                &&& final(self).timer_clocks == total % old(self).frequency as int
                &&& final(self).tima == tima_after(old(self).tima, old(self).tma, k)
                &&& final(interrupts).if_port == if overflowed(old(self).tima, old(self).tma, k) {
                    old(interrupts).if_port | 0x04
                } else {
                    old(interrupts).if_port
                }
            },
    {
        let c16 = (clocks % 0x10000) as u16;
        proof {
            vstd::arithmetic::div_mod::lemma_add_mod_noop(
                self.div_clocks as int,
                clocks as int,
                0x10000,
            );
        }
        self.div_clocks = self.div_clocks.wrapping_add(c16);
        if self.timer_enabled {
            let ghost start = self.timer_clocks + clocks;
            let ghost if0 = interrupts.if_port;
            let mut acc: u64 = self.timer_clocks as u64 + clocks as u64;
            let ghost mut k: nat = 0;
            while acc >= self.frequency as u64
                invariant
                    self.frequency == old(self).frequency,
                    self.frequency == frequency_of(self.tac),
                    self.frequency >= 16,
                    self.timer_clocks == old(self).timer_clocks,
                    acc <= start,
                    self.tac == old(self).tac,
                    self.tma == old(self).tma,
                    self.timer_enabled == old(self).timer_enabled,
                    self.div_clocks == (old(self).div_clocks + clocks) % 0x10000,
                    start == acc + k * self.frequency,
                    self.tima == tima_after(old(self).tima, old(self).tma, k),
                    interrupts.wf(),
                    interrupts.ie_port == old(interrupts).ie_port,
                    interrupts.if_port == if overflowed(old(self).tima, old(self).tma, k) {
                        if0 | 0x04
                    } else {
                        if0
                    },
                decreases acc,
            {
                acc = acc - self.frequency as u64;
                if self.tima == 0xff {
                    self.tima = self.tma;
                    let ghost before = interrupts.if_port;
                    interrupts.request_interrupt(Interrupt::Timer);
                    proof {
                        lemma_or_twice(if0, 0x04);
                    }
                } else {
                    self.tima = self.tima + 1;
                }
                proof {
                    k = k + 1;
                }
            }
            proof {
                let f = self.frequency as int;
                assert(start == acc + k * f);
                vstd::arithmetic::div_mod::lemma_fundamental_div_mod_converse(
                    start as int,
                    f,
                    k as int,
                    acc as int,
                );
            }
            self.timer_clocks = acc as u16;
        }
    }

    pub fn read(&self, addr: u16) -> (r: u8)
        requires
            DIV_PORT <= addr <= TAC_PORT,
        ensures
            addr == DIV_PORT ==> r == self.div_clocks / 256,
            addr == TIMA_PORT ==> r == self.tima,
            addr == TMA_PORT ==> r == self.tma,
            addr == TAC_PORT ==> r == self.tac,
    {
        if addr == DIV_PORT {
            (self.div_clocks / 256) as u8
        } else if addr == TIMA_PORT {
            self.tima
        } else if addr == TMA_PORT {
            self.tma
        } else {
            self.tac
        }
    }

    /// Writing DIV clears both counters; TAC selects the period and enable.
    pub fn write(&mut self, addr: u16, data: u8)
        requires
            old(self).wf(),
            DIV_PORT <= addr <= TAC_PORT,
        ensures
            final(self).wf(),
            addr == DIV_PORT ==> final(self).div_clocks == 0 && final(self).timer_clocks == 0
                && final(self).tima == old(self).tima && final(self).tma == old(self).tma
                && final(self).tac == old(self).tac,
            addr != DIV_PORT ==> final(self).timer_clocks == old(self).timer_clocks
                && final(self).div_clocks == old(self).div_clocks,
            addr == TIMA_PORT ==> final(self).tima == data && final(self).tma == old(self).tma
                && final(self).tac == old(self).tac,
            addr == TMA_PORT ==> final(self).tma == data && final(self).tima == old(self).tima
                && final(self).tac == old(self).tac,
            addr == TAC_PORT ==> final(self).tac == data && final(self).tima == old(self).tima
                && final(self).tma == old(self).tma,
    {
        proof {
            lemma_u8_bits();
        }
        if addr == DIV_PORT {
            self.div_clocks = 0;
            self.timer_clocks = 0;
        } else if addr == TIMA_PORT {
            self.tima = data;
        } else if addr == TMA_PORT {
            self.tma = data;
        } else {
            self.tac = data;
            self.timer_enabled = data & 0x04 != 0;
            let sel = data & 0x03;
            self.frequency = if sel == 0 {
                1024
            } else if sel == 1 {
                16
            } else if sel == 2 {
                64
            } else {
                256
            };
        }
    }
}

proof fn lemma_or_twice(x: u8, m: u8)
    ensures
        (x | m) | m == x | m,
{
    assert((x | m) | m == x | m) by (bit_vector);
}

} // verus!
