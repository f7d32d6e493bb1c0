use vstd::prelude::*;
use crate::bits::{lemma_u16_fields, lemma_u16_with_byte, lemma_u8_fields};

verus! {

/// HDMA5 bit: transfer during HBlank instead of at once.
pub const DMA_MODE: u8 = 0x80;

#[derive(Clone, Copy, Debug, PartialEq, Eq, Structural)]
pub enum VramDMAMode {
    IDLE,
    HBLANK,
    GENERAL,
}

/// The CGB VRAM DMA registers HDMA1-HDMA5.
pub struct VramDMA {
    pub src: u16,
    pub dst: u16,
    pub mode: VramDMAMode,
    pub remaining: u16,
}

/// `dest` with its upper byte replaced by `value`.
pub open spec fn with_hi(dest: u16, value: u8) -> u16 {
    (dest % 256 + value * 256) as u16
}

/// `dest` with its lower byte replaced by `value`.
pub open spec fn with_lo(dest: u16, value: u8) -> u16 {
    (dest / 256 * 256 + value) as u16
}

fn set_u16_hi(dest: u16, value: u8) -> (r: u16)
    ensures
        r == with_hi(dest, value),
{
    assert((dest & 0xff) | ((value as u16) << 8u16) == dest % 256 + value * 256) by { lemma_u16_with_byte(dest, value); }
    (dest & 0xff) | ((value as u16) << 8)
}

fn set_u16_lo(dest: u16, value: u8) -> (r: u16)
    ensures
        r == with_lo(dest, value),
{
    assert((dest & 0xff00) | (value as u16) == dest / 256 * 256 + value) by { lemma_u16_with_byte(dest, value); }
    (dest & 0xff00) | value as u16
}

impl Default for VramDMA {
    fn default() -> (r: Self)
        ensures
            r.src == 0xff && r.dst == 0xff && r.mode == VramDMAMode::IDLE && r.remaining == 0,
    {
        VramDMA { src: 0xff, dst: 0xff, mode: VramDMAMode::IDLE, remaining: 0 }
    }
}

impl VramDMA {
    /// The state after a register write of `value` at `addr`.
    pub open spec fn after_write(self, addr: u16, value: u8) -> VramDMA {
        if addr == 0xff51 {
            VramDMA { src: with_hi(self.src, value), ..self }
        } else if addr == 0xff52 {
            VramDMA { src: with_lo(self.src, value), ..self }
        } else if addr == 0xff53 {
            VramDMA { dst: with_hi(self.dst, value), ..self }
        } else if addr == 0xff54 {
            VramDMA { dst: with_lo(self.dst, value), ..self }
        } else {
            VramDMA {
                remaining: ((value % 128 + 1) * 16) as u16,
                src: (self.src / 16 * 16) as u16,
                dst: ((self.dst / 16 * 16) % 0x8000 + 0x8000) as u16,
                mode: if value >= 128 { VramDMAMode::HBLANK } else { VramDMAMode::GENERAL },
            }
        }
    }

    /// HDMA1-HDMA4 set the source and destination bytes; HDMA5 sets the length
    /// (`(value & 0x7F) + 1` blocks of 16 bytes), aligns both addresses to 16
    /// bytes, forces the destination into VRAM and starts the transfer.
    pub fn write(&mut self, addr: u16, value: u8)
        requires
            0xff51 <= addr <= 0xff55,
        ensures
            *final(self) == old(self).after_write(addr, value),
            addr == 0xff51 ==> final(self).src == with_hi(old(self).src, value)
                && final(self).dst == old(self).dst && final(self).mode == old(self).mode
                && final(self).remaining == old(self).remaining,
            addr == 0xff52 ==> final(self).src == with_lo(old(self).src, value)
                && final(self).dst == old(self).dst && final(self).mode == old(self).mode
                && final(self).remaining == old(self).remaining,
            addr == 0xff53 ==> final(self).dst == with_hi(old(self).dst, value)
                && final(self).src == old(self).src && final(self).mode == old(self).mode
                && final(self).remaining == old(self).remaining,
            addr == 0xff54 ==> final(self).dst == with_lo(old(self).dst, value)
                && final(self).src == old(self).src && final(self).mode == old(self).mode
                && final(self).remaining == old(self).remaining,
            addr == 0xff55 ==> {
                &&& final(self).remaining == (value % 128 + 1) * 16
                &&& final(self).src == old(self).src / 16 * 16
                &&& final(self).dst == (old(self).dst / 16 * 16) % 0x8000 + 0x8000
                &&& final(self).mode == if value >= 128 { VramDMAMode::HBLANK } else { VramDMAMode::GENERAL }
            },
    {
        if addr == 0xff51 {
            self.src = set_u16_hi(self.src, value);
        } else if addr == 0xff52 {
            self.src = set_u16_lo(self.src, value);
        } else if addr == 0xff53 {
            self.dst = set_u16_hi(self.dst, value);
        } else if addr == 0xff54 {
            self.dst = set_u16_lo(self.dst, value);
        } else {
            let s = self.src;
            let d = self.dst;
            assert(((value as u16) & 0b1111111) == value % 128) by { lemma_u16_with_byte(s, value); }
            assert(s & 0xfff0 == s / 16 * 16) by { lemma_u16_fields(s); }
            assert((d & 0xfff0) | 0x8000 == (d / 16 * 16) % 0x8000 + 0x8000) by { lemma_u16_fields(d); }
            assert((value & DMA_MODE == DMA_MODE) == (value >= 128)) by { lemma_u8_fields(value); }
            self.remaining = (((value as u16) & 0b1111111) + 1) * 16;
            self.src = self.src & 0xfff0;
            self.dst = (self.dst & 0xfff0) | 0x8000;
            self.mode = if value & DMA_MODE == DMA_MODE { VramDMAMode::HBLANK } else { VramDMAMode::GENERAL };
        }
    }

    /// A read does not count the block number below zero.
    pub open spec fn read_safe(&self, addr: u16) -> bool {
        addr == 0xff55 ==> self.remaining == 0 || self.remaining >= 16
    }

    /// The byte a read at `addr` returns.
    pub open spec fn read_value(&self, addr: u16) -> u8 {
        if addr == 0xff55 {
            if self.remaining == 0 { 0xff } else { (self.remaining / 16 - 1) as u8 }
        } else {
            0xff
        }
    }

    /// HDMA1-HDMA4 are write-only (0xFF); HDMA5 gives the blocks left minus one,
    /// or 0xFF when none are left.
    pub fn read(&self, addr: u16) -> (r: u8)
        requires
            0xff51 <= addr <= 0xff55,
            self.read_safe(addr),
        ensures
            r == self.read_value(addr),
    {
        if addr == 0xff55 {
            if self.remaining == 0 {
                0xff
            } else {
                ((self.remaining / 16) - 1) as u8
            }
        } else {
            0xff
        }
    }
}

/// The OAM DMA transfer: `src` counts through the source page (0 when idle),
/// `dst` through OAM.
pub struct OamDMA {
    pub src: u16,
    pub dst: u16,
}

impl Default for OamDMA {
    fn default() -> (r: Self)
        ensures
            r.src == 0 && r.dst == 0,
    {
        OamDMA { src: 0, dst: 0 }
    }
}

impl OamDMA {
    /// Starts a transfer from page `src` (address `src * 0x100`) into OAM.
    pub fn init(&mut self, src: u8)
        ensures
            final(self).src == src * 0x100,
            final(self).dst == 0xfe00,
    {
        self.src = src as u16 * 0x100;
        self.dst = 0xfe00;
    }
}

} // verus!
