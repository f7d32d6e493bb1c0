use vstd::prelude::*;
use crate::bits::{lemma_u8_fields};

verus! {

/// Selector bit that picks the direction pad nibble.
pub const PAD: u8 = 0x10;
/// Selector bit that picks the action buttons nibble.
pub const ACTION: u8 = 0x20;

/// Button masks of the joypad state byte (a cleared bit is a pressed button).
pub const BUTTON_A: u8 = 0x1;
pub const BUTTON_B: u8 = 0x2;
pub const BUTTON_START: u8 = 0x4;
pub const BUTTON_SELECT: u8 = 0x8;
pub const BUTTON_RIGHT: u8 = 0x10;
pub const BUTTON_LEFT: u8 = 0x20;
pub const BUTTON_UP: u8 = 0x40;
pub const BUTTON_DOWN: u8 = 0x80;

/// The P1/JOYP register (0xFF00): button state and the nibble selector.
pub struct Joypad {
    /// One bit per button, low when pressed.
    pub state: u8,
    /// Upper nibble last written to JOYP.
    pub selector: u8,
}

impl Joypad {
    pub fn new() -> (r: Self)
        ensures
            r.state == 0xff,
            r.selector == PAD | ACTION,
    {
        Joypad { state: 0xff, selector: PAD | ACTION }
    }

    /// The byte a read returns.
    pub open spec fn read_value(&self) -> u8 {
        if self.selector & (ACTION | PAD) == (ACTION | PAD) {
            0xfu8
        } else if self.selector & (ACTION | PAD) == PAD {
            self.state & 0xf
        } else {
            self.state >> 4
        }
    }

    /// A read does not hit a selector with both group bits clear.
    pub open spec fn read_safe(&self) -> bool {
        self.selector & (ACTION | PAD) != 0
    }

    /// A write keeps only the upper nibble as the selector.
    pub fn write(&mut self, value: u8)
        ensures
            final(self).selector == value & 0xf0,
            final(self).state == old(self).state,
    {
        self.selector = value & 0xf0;
    }

    /// Reads JOYP: 0x0F when both groups are deselected, else the nibble of the
    /// group whose selector bit alone is set.
    pub fn read(&self) -> (r: u8)
        requires
            self.read_safe(),
        ensures
            r == self.read_value(),
    {
        if self.selector & (ACTION | PAD) == (ACTION | PAD) {
            return 0xf;
        }
        let sel = self.selector & (ACTION | PAD);
        if sel == PAD {
            self.state & 0xf
        } else {
            let s = self.selector;
            assert(s & 0x30 != 0 && s & 0x30 != 0x30 && s & 0x30 != 0x10 ==> s & 0x30 == 0x20) by { lemma_u8_fields(s); }
            self.state >> 4
        }
    }

    /// Pressing a button clears its bits.
    pub fn press(&mut self, button: u8)
        ensures
            final(self).state == old(self).state & !button,
            final(self).selector == old(self).selector,
    {
        self.state = self.state & !button;
    }

    /// Releasing a button sets its bits.
    pub fn release(&mut self, button: u8)
        ensures
            final(self).state == old(self).state | button,
            final(self).selector == old(self).selector,
    {
        self.state = self.state | button;
    }
}

/// Pressing a button and releasing it again restores the state, for a button
/// that was released before.
pub proof fn lemma_press_release_roundtrip(state: u8, button: u8)
    requires
        state & button == button,
    ensures
        (state & !button) | button == state,
{
    assert((state & button == button) ==> ((state & !button) | button == state)) by (bit_vector);
}

} // verus!
