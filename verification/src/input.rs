//! The first controller port: an eight-bit shift register that the program
//! reads one button at a time.

use vstd::prelude::*;

verus! {

/// Bit of the A button; the first bit a program reads.
pub const BUTTON_A: u8 = 0x01;

/// Bit of the B button.
pub const BUTTON_B: u8 = 0x02;

/// Bit of the Select button.
pub const BUTTON_SELECT: u8 = 0x04;

/// Bit of the Start button.
pub const BUTTON_START: u8 = 0x08;

/// Bit of Up on the pad.
pub const BUTTON_UP: u8 = 0x10;

/// Bit of Down on the pad.
pub const BUTTON_DOWN: u8 = 0x20;

/// Bit of Left on the pad.
pub const BUTTON_LEFT: u8 = 0x40;

/// Bit of Right on the pad; the last bit a program reads.
pub const BUTTON_RIGHT: u8 = 0x80;

/// State of controller one.
pub struct Input {
    /// The shift register, A in bit 0 and Right in bit 7.
    pub joypad_one: u8,
    /// The strobe line: while set, a poll reloads the shift register.
    pub read_latch: bool,
    /// The buttons held down when the driver last looked, in the same layout.
    pub snapshot: u8,
}

/// `state` with the buttons of `mask` pressed or released.
pub open spec fn with_button(state: u8, mask: u8, pressed: bool) -> u8 {
    if pressed {
        state | mask
    } else {
        state & !mask
    }
}

impl Input {
    /// A controller with nothing pressed and the strobe low.
    pub open spec fn fresh() -> Input {
        Input { joypad_one: 0, read_latch: false, snapshot: 0 }
    }

    /// A controller with nothing pressed and the strobe low.
    pub fn new() -> (input: Input)
        ensures
            input == Input::fresh(),
    {
        Input { joypad_one: 0, read_latch: false, snapshot: 0 }
    }

    /// Presses or releases the buttons of `mask` in the shift register.
    fn set_button(&mut self, mask: u8, val: bool)
        ensures
            final(self).joypad_one == with_button(old(self).joypad_one, mask, val),
            final(self).read_latch == old(self).read_latch,
            final(self).snapshot == old(self).snapshot,
    {
        if val {
            self.joypad_one |= mask;
        } else {
            self.joypad_one &= !mask;
        }
    }

    /// Presses or releases A in the shift register.
    pub fn set_a_input(&mut self, val: bool)
        ensures
            final(self).joypad_one == with_button(old(self).joypad_one, BUTTON_A, val),
            final(self).read_latch == old(self).read_latch,
            final(self).snapshot == old(self).snapshot,
    {
        self.set_button(BUTTON_A, val);
    }

    /// Presses or releases B in the shift register.
    pub fn set_b_input(&mut self, val: bool)
        ensures
            final(self).joypad_one == with_button(old(self).joypad_one, BUTTON_B, val),
            final(self).read_latch == old(self).read_latch,
            final(self).snapshot == old(self).snapshot,
    {
        self.set_button(BUTTON_B, val);
    }

    /// Presses or releases Select in the shift register.
    pub fn set_select_input(&mut self, val: bool)
        ensures
            final(self).joypad_one == with_button(old(self).joypad_one, BUTTON_SELECT, val),
            final(self).read_latch == old(self).read_latch,
            final(self).snapshot == old(self).snapshot,
    {
        self.set_button(BUTTON_SELECT, val);
    }

    /// Presses or releases Start in the shift register.
    pub fn set_start_input(&mut self, val: bool)
        ensures
            final(self).joypad_one == with_button(old(self).joypad_one, BUTTON_START, val),
            final(self).read_latch == old(self).read_latch,
            final(self).snapshot == old(self).snapshot,
    {
        self.set_button(BUTTON_START, val);
    }

    /// Presses or releases Up in the shift register.
    pub fn set_up_input(&mut self, val: bool)
        ensures
            final(self).joypad_one == with_button(old(self).joypad_one, BUTTON_UP, val),
            final(self).read_latch == old(self).read_latch,
            final(self).snapshot == old(self).snapshot,
    {
        self.set_button(BUTTON_UP, val);
    }

    /// Presses or releases Down in the shift register.
    pub fn set_down_input(&mut self, val: bool)
        ensures
            final(self).joypad_one == with_button(old(self).joypad_one, BUTTON_DOWN, val),
            final(self).read_latch == old(self).read_latch,
            final(self).snapshot == old(self).snapshot,
    {
        self.set_button(BUTTON_DOWN, val);
    }

    /// Presses or releases Left in the shift register.
    pub fn set_left_input(&mut self, val: bool)
        ensures
            final(self).joypad_one == with_button(old(self).joypad_one, BUTTON_LEFT, val),
            final(self).read_latch == old(self).read_latch,
            final(self).snapshot == old(self).snapshot,
    {
        self.set_button(BUTTON_LEFT, val);
    }

    /// Presses or releases Right in the shift register.
    pub fn set_right_input(&mut self, val: bool)
        ensures
            final(self).joypad_one == with_button(old(self).joypad_one, BUTTON_RIGHT, val),
            final(self).read_latch == old(self).read_latch,
            final(self).snapshot == old(self).snapshot,
    {
        self.set_button(BUTTON_RIGHT, val);
    }

    /// Records which buttons are held down right now, for the next poll.
    pub fn set_snapshot(&mut self, buttons: u8)
        ensures
            *final(self) == (Input { snapshot: buttons, ..*old(self) }),
    {
        self.snapshot = buttons;
    }

    /// The controller after a poll: with the strobe high the shift register
    /// takes the snapshot, with the strobe low nothing moves.
    pub open spec fn polled(self) -> Input {
        if self.read_latch {
            Input { joypad_one: self.snapshot, ..self }
        } else {
            self
        }
    }

    /// Polls the buttons.
    pub fn update_input(&mut self)
        ensures
            *final(self) == old(self).polled(),
    {
        if self.read_latch {
            self.joypad_one = self.snapshot;
        }
    }

    /// Drives the strobe line.
    pub fn set_latch(&mut self, val: bool)
        ensures
            *final(self) == (Input { read_latch: val, ..*old(self) }),
    {
        self.read_latch = val;
    }

    /// The button that the next read reports: 1 if pressed, else 0.
    pub open spec fn next_bit(self) -> u8 {
        self.joypad_one & 1
    }

    /// The controller after one read: the shift register moved down by one.
    pub open spec fn shifted(self) -> Input {
        Input { joypad_one: self.joypad_one >> 1, ..self }
    }

    /// Reads one button and moves on to the next.
    pub fn read_and_shift_joypad_one(&mut self) -> (bit: u8)
        ensures
            bit == old(self).next_bit(),
            *final(self) == old(self).shifted(),
    {
        let bit: u8 = self.joypad_one & 1;
        self.joypad_one >>= 1;
        bit
    }
}

} // verus!
