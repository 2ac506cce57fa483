//! The controller port ($4016): a strobe latch and a stream of eight button
//! bits in the order A, B, Select, Start, Up, Down, Left, Right.
use vstd::prelude::*;
use crate::flags::{with_flag, set_flag};

verus! {

pub const BUTTON_A: u8 = 0b0000_0001;
pub const BUTTON_B: u8 = 0b0000_0010;
pub const SELECT: u8 = 0b0000_0100;
pub const START: u8 = 0b0000_1000;
pub const UP: u8 = 0b0001_0000;
pub const DOWN: u8 = 0b0010_0000;
pub const LEFT: u8 = 0b0100_0000;
pub const RIGHT: u8 = 0b1000_0000;

#[derive(Clone, Copy, Debug, PartialEq, Eq, Structural)]
pub struct Joypad {
    pub strobe: bool,
    pub button_index: u8,
    pub button_status: u8,
}

/// The port after a write of `data`: bit 0 turns strobe mode on (and rewinds
/// the stream) or off.
pub open spec fn joypad_after_write(j: Joypad, data: u8) -> Joypad {
    let strobe = data & 1 == 1;
    Joypad {
        strobe,
        button_index: if strobe { 0 } else { j.button_index },
        button_status: j.button_status,
    }
}

/// The port after a read, and the bit read: 1 once all eight buttons have
/// been read; otherwise the current button's bit, moving on unless strobed.
pub open spec fn joypad_read(j: Joypad) -> (Joypad, u8) {
    if j.button_index > 7 {
        (j, 1)
    } else {
        (
            Joypad {
                button_index: if j.strobe { j.button_index } else { (j.button_index + 1) as u8 },
                ..j
            },
            (j.button_status >> j.button_index) & 1,
        )
    }
}

impl Joypad {
    pub open spec fn spec_new() -> Joypad {
        Joypad { strobe: false, button_index: 0, button_status: 0 }
    }

    pub fn new() -> (r: Self)
        ensures
            r == Joypad::spec_new(),
    {
        Joypad { strobe: false, button_index: 0, button_status: 0 }
    }

    pub fn write(&mut self, data: u8)
        ensures
            *final(self) == joypad_after_write(*old(self), data),
    {
        self.strobe = data & 1 == 1;
        if self.strobe {
            self.button_index = 0;
        }
    }

    pub fn read(&mut self) -> (r: u8)
        ensures
            (*final(self), r) == joypad_read(*old(self)),
    {
        if self.button_index > 7 {
            return 1;
        }
        let response = (self.button_status >> self.button_index) & 1;
        if !self.strobe {
            self.button_index = self.button_index + 1;
        }
        response
    }

    /// Presses (`pressed`) or releases the buttons of `button`.
    pub fn set_button_pressed_status(&mut self, button: u8, pressed: bool)
        ensures
            final(self).button_status == with_flag(old(self).button_status, button, pressed),
            final(self).strobe == old(self).strobe,
            final(self).button_index == old(self).button_index,
    {
        self.button_status = set_flag(self.button_status, button, pressed);
    }
}

} // verus!
