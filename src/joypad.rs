//! The joypad register (JOYP, FF00): two active-low selectable nibbles.
use vstd::prelude::*;
use crate::interrupt::{Interrupt, InterruptHandler, interrupt_mask};

verus! {

/// Bit of JOYP that selects the action buttons when clear.
pub const BUTTON_SELECT_MASK: u8 = 0x20;

/// Bit of JOYP that selects the direction keys when clear.
pub const DIRECTION_SELECT_MASK: u8 = 0x10;

/// The nibble read when nothing is pressed.
pub const EMPTY_INPUT: u8 = 0x0f;

/// Which keys are held during a frame.
#[derive(Debug, Default, Clone, Copy, PartialEq, Eq)]
pub struct JoypadState {
    pub left: bool,
    pub right: bool,
    pub up: bool,
    pub down: bool,
    pub start: bool,
    pub select: bool,
    pub button_a: bool,
    pub button_b: bool,
}

/// No key is held.
pub open spec fn no_keys(s: JoypadState) -> bool {
    !s.left && !s.right && !s.up && !s.down && !s.start && !s.select && !s.button_a && !s.button_b
}

/// The active-low nibble of four keys, most significant first.
pub open spec fn nibble(b3: bool, b2: bool, b1: bool, b0: bool) -> u8 {
    ((if b3 { 0u8 } else { 8u8 }) + (if b2 { 0u8 } else { 4u8 }) + (if b1 { 0u8 } else { 2u8 })
        + (if b0 { 0u8 } else { 1u8 })) as u8
}

fn active_low(b3: bool, b2: bool, b1: bool, b0: bool) -> (r: u8)
    ensures
        r == nibble(b3, b2, b1, b0),
        r < 16,
{
    let mut r: u8 = 0;
    if !b3 {
        r = r + 8;
    }
    if !b2 {
        r = r + 4;
    }
    if !b1 {
        r = r + 2;
    }
    if !b0 {
        r = r + 1;
    }
    r
}

pub struct Joypad {
    /// The two selection bits as last written (bits 4 and 5).
    pub select: u8,
    pub button_bits: u8,
    pub direction_bits: u8,
}

impl Joypad {
    pub fn new() -> (r: Self)
        ensures
            r.select == 0x30 && r.button_bits == 0xff && r.direction_bits == 0xff,
    {
        Joypad { select: 0x30, button_bits: 0xff, direction_bits: 0xff }
    }

    /// The selected group's nibble (buttons first), or all released, with
    /// the selection bits and the two unused high bits set.
    pub fn read(&self, _addr: u16) -> (r: u8)
        ensures
            r == self.select | (if self.select & BUTTON_SELECT_MASK == 0 {
                self.button_bits
            } else if self.select & DIRECTION_SELECT_MASK == 0 {
                self.direction_bits
            } else {
                EMPTY_INPUT
            }) | 0xc0,
    {
        let bits = if self.select & BUTTON_SELECT_MASK == 0 {
            self.button_bits
        } else if self.select & DIRECTION_SELECT_MASK == 0 {
            self.direction_bits
        } else {
            EMPTY_INPUT
        };
        self.select | bits | 0xc0
    }

    /// Only the two selection bits are writable.
    pub fn write(&mut self, _addr: u16, data: u8)
        ensures
            final(self).select == data & 0x30,
            final(self).button_bits == old(self).button_bits,
            final(self).direction_bits == old(self).direction_bits,
    {
        self.select = data & 0x30;
    }

    /// Latches the host's key state as two active-low nibbles.
    pub fn set_input(&mut self, states: JoypadState)
        ensures
            final(self).select == old(self).select,
            final(self).button_bits == nibble(
                states.start,
                states.select,
                states.button_b,
                states.button_a,
            ),
            final(self).direction_bits == nibble(
                states.down,
                states.up,
                states.left,
                states.right,
            ),
    {
        self.button_bits = active_low(states.start, states.select, states.button_b, states.button_a);
        self.direction_bits = active_low(states.down, states.up, states.left, states.right);
    }

    /// Requests the joypad interrupt when a key of a selected group is held.
    pub fn update(&self, interrupts: &mut InterruptHandler)
        requires
            old(interrupts).wf(),
        ensures
            final(interrupts).wf(),
            final(interrupts).ie_port == old(interrupts).ie_port,
            final(interrupts).if_port == if ((self.select & BUTTON_SELECT_MASK == 0 && self.button_bits != EMPTY_INPUT)
                || (self.select & DIRECTION_SELECT_MASK == 0 && self.direction_bits
                != EMPTY_INPUT)) {
                old(interrupts).if_port | interrupt_mask(Interrupt::Joypad)
            } else {
                old(interrupts).if_port
            },
    {
        if (self.select & BUTTON_SELECT_MASK == 0 && self.button_bits != EMPTY_INPUT) || (
        self.select & DIRECTION_SELECT_MASK == 0 && self.direction_bits != EMPTY_INPUT) {
            interrupts.request_interrupt(Interrupt::Joypad);
        }
    }
}

} // verus!
