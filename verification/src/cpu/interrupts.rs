use vstd::prelude::*;

verus! {

/// Bit of the VBlank interrupt in IF / IE.
pub const VBLANK: u8 = 0x1;
/// Bit of the LCD STAT interrupt in IF / IE.
pub const STAT: u8 = 0x2;
/// Bit of the timer interrupt in IF / IE.
pub const TIMER: u8 = 0x4;
/// Bit of the serial interrupt in IF / IE.
pub const SERIAL: u8 = 0x8;
/// Bit of the joypad interrupt in IF / IE.
pub const JOYPAD: u8 = 0x10;

/// The interrupt flag (IF, 0xFF0F) and interrupt enable (IE, 0xFFFF) registers.
#[derive(Clone, Copy, Debug, PartialEq, Eq)]
pub struct Interrupts {
    pub flags: u8,
    pub enable: u8,
}

impl Interrupts {
    pub fn new() -> (r: Self)
        ensures
            r.flags == 0,
            r.enable == 0,
    {
        Interrupts { flags: 0, enable: 0 }
    }
}

/// Raises the interrupt bits `interrupt` in IF; IE is left alone.
pub fn request_interrupt(ints: &mut Interrupts, interrupt: u8)
    ensures
        final(ints).flags == old(ints).flags | interrupt,
        final(ints).enable == old(ints).enable,
{
    ints.flags = ints.flags | interrupt;
}

} // verus!
