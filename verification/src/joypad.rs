use vstd::prelude::*;
use crate::interrupts::{IntFlag, IntReq};

verus! {

/// A button of the console. The code byte packs, for the four direction keys,
/// a marker in the high nibble telling them apart from the action buttons.
#[derive(Debug, Copy, Clone, PartialEq, Eq, Structural)]
pub enum Button {
    Start,
    Select,
    B,
    A,
    Down,
    Up,
    Left,
    Right,
}

impl Button {
    /// The bit pattern of this button: low nibble selects the line,
    /// a nonzero high nibble marks the direction pad.
    pub open spec fn spec_code(self) -> u8 {
        match self {
            Button::Start => 0b0000_1000,
            Button::Select => 0b0000_0100,
            Button::B => 0b0000_0010,
            Button::A => 0b0000_0001,
            Button::Down => 0b1111_1000,
            Button::Up => 0b1111_0100,
            Button::Left => 0b1111_0010,
            Button::Right => 0b1111_0001,
        }
    }

    pub fn code(self) -> (r: u8)
        ensures
            r == self.spec_code(),
    {
        match self {
            Button::Start => 0b0000_1000,
            Button::Select => 0b0000_0100,
            Button::B => 0b0000_0010,
            Button::A => 0b0000_0001,
            Button::Down => 0b1111_1000,
            Button::Up => 0b1111_0100,
            Button::Left => 0b1111_0010,
            Button::Right => 0b1111_0001,
        }
    }
}

/// The joypad matrix: two 4-bit packs (0 = pressed) and the 2-bit select
/// latch written through address 0xFF00.
#[derive(Debug, Copy, Clone, PartialEq, Eq, Structural)]
pub struct Joypad {
    pub dpad: u8,
    pub bpad: u8,
    pub select: u8,
}

impl Joypad {
    pub fn new() -> (r: Joypad)
        ensures
            r == (Joypad { dpad: 0, bpad: 0, select: 0 }),
    {
        Joypad { dpad: 0, bpad: 0, select: 0 }
    }

    /// Stores the select latch written by the program: only bits 4 and 5
    /// are latched.
    pub fn set_select(&mut self, value: u8)
        ensures
            *final(self) == (Joypad { select: (value & 0b0011_0000) as u8, ..*old(self) }),
    {
        self.select = value & 0b0011_0000;
    }

    /// The byte exposed at 0xFF00: bits 6..7 read as one, bits 4..5 echo
    /// the select latch, and the low nibble shows the direction pack when
    /// bit 4 is clear, else the button pack when bit 5 is clear, else all
    /// ones.
    pub open spec fn spec_state(self) -> u8 {
        ((0b1100_0000u8 | (self.select & 0b0011_0000)) | (if self.select & 0b0001_0000 == 0 {
            (self.dpad & 0x0F) as u8
        } else if self.select & 0b0010_0000 == 0 {
            (self.bpad & 0x0F) as u8
        } else {
            0x0Fu8
        })) as u8
    }

    pub fn state(&self) -> (r: u8)
        ensures
            r == self.spec_state(),
    {
        let nibble: u8 = if (self.select & 0b0001_0000) == 0 {
            self.dpad & 0x0F
        } else if (self.select & 0b0010_0000) == 0 {
            self.bpad & 0x0F
        } else {
            0x0F
        };
        (0b1100_0000 | (self.select & 0b0011_0000)) | nibble
    }

    /// Marks a button pressed (clears its bit in the matching pack) and
    /// raises the joypad interrupt.
    pub fn button_down(&mut self, button: Button, intr: &mut IntReq)
        ensures
            final(intr).flags == old(intr).flags | 0x10,
            button.spec_code() > 0x0F ==> *final(self) == (Joypad {
                dpad: old(self).dpad & !button.spec_code() & 0x0F,
                ..*old(self)
            }),
            button.spec_code() <= 0x0F ==> *final(self) == (Joypad {
                bpad: old(self).bpad & !button.spec_code() & 0x0F,
                ..*old(self)
            }),
    {
        intr.set_flag(IntFlag::Joypad);
        let code = button.code();
        if code > 0x0F {
            self.dpad = self.dpad & !code & 0x0F;
        } else {
            self.bpad = self.bpad & !code & 0x0F;
        }
    }

    /// Marks a button released (sets its bit in the matching pack).
    pub fn button_up(&mut self, button: Button)
        ensures
            button.spec_code() > 0x0F ==> *final(self) == (Joypad {
                dpad: old(self).dpad | (button.spec_code() & 0x0F),
                ..*old(self)
            }),
            button.spec_code() <= 0x0F ==> *final(self) == (Joypad {
                bpad: old(self).bpad | button.spec_code(),
                ..*old(self)
            }),
    {
        let code = button.code();
        if code > 0x0F {
            self.dpad = self.dpad | (code & 0x0F);
        } else {
            self.bpad = self.bpad | code;
        }
    }
}

} // verus!
