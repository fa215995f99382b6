//! A standard controller: eight buttons behind an 8-bit shift register.
use vstd::prelude::*;

verus! {

#[derive(Clone, Copy, Debug, PartialEq, Eq, Structural)]
pub enum PadButton {
    A,
    B,
    Up,
    Down,
    Right,
    Left,
    Start,
    Select,
}

/// The bit of a button in the button state: A is bit 7, then B, Select, Start, Up, Down,
/// Left, and Right in bit 0.
pub open spec fn button_mask(button: PadButton) -> u8 {
    match button {
        PadButton::A => 0x80,
        PadButton::B => 0x40,
        PadButton::Select => 0x20,
        PadButton::Start => 0x10,
        PadButton::Up => 0x08,
        PadButton::Down => 0x04,
        PadButton::Left => 0x02,
        PadButton::Right => 0x01,
    }
}

fn mask_of(button: PadButton) -> (r: u8)
    ensures
        r == button_mask(button),
{
    match button {
        PadButton::A => 0x80,
        PadButton::B => 0x40,
        PadButton::Select => 0x20,
        PadButton::Start => 0x10,
        PadButton::Up => 0x08,
        PadButton::Down => 0x04,
        PadButton::Left => 0x02,
        PadButton::Right => 0x01,
    }
}

pub struct Pad {
    /// Buttons held, packed A B Select Start Up Down Left Right from bit 7 down.
    pub reg: u8,
    /// What the next reads shift out, top bit first.
    pub shift: u8,
    /// While set, the shift register follows the buttons and reads give the A bit.
    pub strobe: bool,
}

impl Pad {
    pub fn new() -> (r: Pad)
        ensures
            r.reg == 0,
            r.shift == 0,
            !r.strobe,
    {
        Pad { reg: 0, shift: 0, strobe: false }
    }

    /// The pad after a write of strobe value `strobe`.
    pub open spec fn write_post(&self, post: &Pad, strobe: bool) -> bool {
        post.strobe == strobe && post.shift == self.reg && post.reg == self.reg
    }

    /// The pad after a read that returned `r`.
    pub open spec fn read_post(&self, post: &Pad, r: u8) -> bool {
        &&& self.strobe ==> r == (self.reg >> 7u8) && post.shift == self.reg
        &&& !self.strobe ==> r == (self.shift >> 7u8) && post.shift == ((self.shift << 1u8) | 1u8) as u8
        &&& post.reg == self.reg
        &&& post.strobe == self.strobe
    }

    /// Handles a write of bit 0 of the controller port: the buttons are latched either way,
    /// and `strobe` selects whether they keep being reloaded.
    pub fn write(&mut self, strobe: bool)
        ensures
            old(self).write_post(final(self), strobe),
    {
        self.strobe = strobe;
        self.shift = self.reg;
    }

    /// Returns the next button bit. In strobe mode that is always A; otherwise the latched
    /// bits come out in order A, B, Select, Start, Up, Down, Left, Right, then 1s.
    pub fn read(&mut self) -> (r: u8)
        ensures
            old(self).read_post(final(self), r),
    {
        if self.strobe {
            self.shift = self.reg;
            self.reg >> 7u8
        } else {
            let bit = self.shift >> 7u8;
            self.shift = (self.shift << 1u8) | 1u8;
            bit
        }
    }

    /// The bit the next read returns.
    pub open spec fn spec_peek(&self) -> u8 {
        if self.strobe {
            self.reg >> 7u8
        } else {
            self.shift >> 7u8
        }
    }

    /// The bit the next read returns, without shifting.
    pub fn peek(&self) -> (r: u8)
        ensures
            r == self.spec_peek(),
    {
        if self.strobe {
            self.reg >> 7u8
        } else {
            self.shift >> 7u8
        }
    }

    /// Releases every button.
    pub fn reset(&mut self)
        ensures
            final(self).reg == 0,
            final(self).shift == old(self).shift,
            final(self).strobe == old(self).strobe,
    {
        self.reg = 0;
    }

    pub fn press_button(&mut self, button: PadButton)
        ensures
            final(self).reg == old(self).reg | button_mask(button),
            final(self).shift == old(self).shift,
            final(self).strobe == old(self).strobe,
    {
        self.reg = self.reg | mask_of(button);
    }

    pub fn release_button(&mut self, button: PadButton)
        ensures
            final(self).reg == old(self).reg & !button_mask(button),
            final(self).shift == old(self).shift,
            final(self).strobe == old(self).strobe,
    {
        self.reg = self.reg & !mask_of(button);
    }

    pub fn get_reg(&self) -> (r: u8)
        ensures
            r == self.reg,
    {
        self.reg
    }
}

} // verus!
