use vstd::prelude::*;

verus! {

/// Whether `addr` is one of the I/O registers the plain register block
/// knows: joypad, serial, timer, IF, sound, wave RAM, LCD, VBK, the boot ROM
/// switch, VRAM DMA, CGB palettes and SVBK.
pub open spec fn known_register(addr: u16) -> bool {
    ||| addr == 0xff00
    ||| 0xff01 <= addr <= 0xff02
    ||| 0xff04 <= addr <= 0xff07
    ||| addr == 0xff0f
    ||| 0xff10 <= addr <= 0xff26
    ||| 0xff30 <= addr <= 0xff3f
    ||| 0xff40 <= addr <= 0xff4b
    ||| addr == 0xff4f
    ||| addr == 0xff50
    ||| 0xff51 <= addr <= 0xff55
    ||| 0xff68 <= addr <= 0xff6b
    ||| addr == 0xff70
}

/// A register block with no device behind it: every known register reads
/// 0xFF and ignores writes.
#[derive(Clone, Copy, Debug, PartialEq, Eq, Structural)]
pub struct IO {}

fn is_known(addr: u16) -> (r: bool)
    ensures
        r == known_register(addr),
{
    addr == 0xff00 || (0xff01 <= addr && addr <= 0xff02) || (0xff04 <= addr && addr <= 0xff07)
        || addr == 0xff0f || (0xff10 <= addr && addr <= 0xff26) || (0xff30 <= addr && addr <= 0xff3f)
        || (0xff40 <= addr && addr <= 0xff4b) || addr == 0xff4f || addr == 0xff50
        || (0xff51 <= addr && addr <= 0xff55) || (0xff68 <= addr && addr <= 0xff6b) || addr == 0xff70
}

impl IO {
    pub fn new() -> (r: Self)
        ensures
            r == (IO {}),
    {
        IO {}
    }

    /// Whether `addr` is a register this block answers.
    pub fn handles(&self, addr: u16) -> (r: bool)
        ensures
            r == known_register(addr),
    {
        is_known(addr)
    }

    /// A write to a known register has no effect.
    pub fn write(&mut self, addr: u16, value: u8)
        requires
            known_register(addr),
        ensures
            *final(self) == *old(self),
    {
    }

    /// A known register reads 0xFF.
    pub fn read(&self, addr: u16) -> (r: u8)
        requires
            known_register(addr),
        ensures
            r == 0xff,
    {
        0xff
    }
}

} // verus!
