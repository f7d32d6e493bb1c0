use vstd::prelude::*;
use crate::bits::{lemma_u16_fields};
use crate::io::IOMMU;
use crate::io::video::lcd::PPUMode;
use crate::io::video::ppu::RESX;
use crate::mem::bus::Bus;
use crate::mem::dma::{OamDMA, VramDMA, VramDMAMode};

verus! {

/// The bus after `n` bytes are copied one by one from `src..` to `dst..`,
/// each byte read after the previous one was written.
pub open spec fn copy_bytes(b: Bus, src: u16, dst: u16, n: int) -> Bus
    decreases n,
{
    if n <= 0 {
        b
    } else {
        let p = copy_bytes(b, src, dst, n - 1);
        p.after_write((dst + n - 1) as u16, p.read_value((src + n - 1) as u16))
    }
}

/// Whether `n` bytes from `src` can be copied to `dst` below 0xA000: the
/// addresses stay in range and every source byte can be read when its turn
/// comes (earlier bytes may have switched a cartridge bank).
pub open spec fn copy_ok(b: Bus, src: u16, dst: u16, n: int) -> bool {
    &&& src + n <= 0x10000
    &&& dst + n <= 0xa000
    &&& forall|i: int| 0 <= i < n ==> #[trigger] source_readable(b, src, dst, i)
}

/// Whether byte `i` of a copy from `src` to `dst` can be read, after the
/// bytes before it were copied.
pub open spec fn source_readable(b: Bus, src: u16, dst: u16, i: int) -> bool {
    copy_bytes(b, src, dst, i).read_safe((src + i) as u16)
}

/// A write below 0xA000 (cartridge or VRAM) leaves the DMA registers and the
/// PPU's position alone.
proof fn lemma_low_write_keeps_dma(b: Bus, addr: u16, v: u8)
    requires
        addr < 0xa000,
    ensures
        b.after_write(addr, v).oam_dma == b.oam_dma,
        b.after_write(addr, v).vram_dma == b.vram_dma,
        b.after_write(addr, v).io.ppu.lcd == b.io.ppu.lcd,
        b.after_write(addr, v).io.ppu.line_x == b.io.ppu.line_x,
{
    reveal(Bus::after_write);
    reveal(IOMMU::after_write);
}

/// The source address of a VRAM DMA block (lower 4 bits cleared).
pub open spec fn hdma_src(d: VramDMA) -> u16 {
    (d.src / 16 * 16) as u16
}

/// The destination of a VRAM DMA block, taken below 0x2000 (lower 4 bits cleared).
pub open spec fn hdma_dst(d: VramDMA) -> u16 {
    (d.dst % 0x2000 / 16 * 16) as u16
}

impl Bus {
    /// Whether the OAM DMA step can run: the byte can be read and the
    /// counters stay in range.
    pub open spec fn oam_dma_ok(self) -> bool {
        let d = self.oam_dma;
        let b = self.after_write(d.dst, self.read_value(d.src));
        d.src != 0 ==> self.read_safe(d.src) && b.oam_dma.src < 0xffff && b.oam_dma.dst < 0xffff
    }

    /// The bus after one OAM DMA step: while a transfer runs, one byte is
    /// copied to OAM; after 0xFE9F the transfer stops.
    pub open spec fn after_oam_dma(self) -> Bus {
        let d = self.oam_dma;
        if d.src == 0 {
            self
        } else {
            let b = self.after_write(d.dst, self.read_value(d.src));
            let dst = (b.oam_dma.dst + 1) as u16;
            Bus { oam_dma: OamDMA { src: if dst > 0xfe9f { 0 } else { (b.oam_dma.src + 1) as u16 }, dst }, ..b }
        }
    }

    /// The number of bytes a general VRAM DMA copies.
    pub open spec fn hdma_general_len(self) -> int {
        (self.vram_dma.remaining + 1) * 16
    }

    /// Whether an HBlank VRAM DMA block is copied by this step.
    pub open spec fn hdma_block_due(self) -> bool {
        &&& self.vram_dma.mode == VramDMAMode::HBLANK
        &&& self.io.ppu.lcd.mode_spec() == PPUMode::HBlank
        &&& self.vram_dma.remaining != 0
        &&& self.io.ppu.line_x as int == RESX
    }

    /// Whether the VRAM DMA step can run.
    pub open spec fn vram_dma_ok(self) -> bool {
        let d = self.vram_dma;
        &&& self.hdma_block_due() ==> copy_ok(self, hdma_src(d), hdma_dst(d), 16)
        &&& d.mode == VramDMAMode::GENERAL ==> d.remaining < 0xfff
            && copy_ok(self, hdma_src(d), hdma_dst(d), self.hdma_general_len())
    }

    /// The bus after one VRAM DMA step: in HBlank mode one 16-byte block at
    /// the start of each HBlank (stopping when none is left); in general mode
    /// the whole transfer at once.
    pub open spec fn after_vram_dma(self) -> Bus {
        let d = self.vram_dma;
        match d.mode {
            VramDMAMode::IDLE => self,
            VramDMAMode::HBLANK => {
                if self.io.ppu.lcd.mode_spec() != PPUMode::HBlank {
                    self
                } else if d.remaining == 0 {
                    Bus { vram_dma: VramDMA { mode: VramDMAMode::IDLE, ..d }, ..self }
                } else if self.io.ppu.line_x as int == RESX {
                    let b = copy_bytes(self, hdma_src(d), hdma_dst(d), 16);
                    Bus { vram_dma: VramDMA { remaining: (d.remaining - 1) as u16, ..d }, ..b }
                } else {
                    self
                }
            },
            VramDMAMode::GENERAL => {
                let b = copy_bytes(self, hdma_src(d), hdma_dst(d), self.hdma_general_len());
                Bus { vram_dma: VramDMA { remaining: 0, mode: VramDMAMode::IDLE, ..d }, ..b }
            },
        }
    }

    /// Whether `tick` can run.
    #[verifier::opaque]
    pub open spec fn dma_ok(self) -> bool {
        self.oam_dma_ok() && self.after_oam_dma().vram_dma_ok()
    }

    /// The bus after `tick`.
    #[verifier::opaque]
    pub open spec fn after_dma(self) -> Bus {
        self.after_oam_dma().after_vram_dma()
    }

    /// Copies `n` bytes from `src..` to `dst..`, one by one.
    fn copy(&mut self, src: u16, dst: u16, n: u16)
        requires
            old(self).wf(),
            copy_ok(*old(self), src, dst, n as int),
        ensures
            final(self).wf(),
            *final(self) == copy_bytes(*old(self), src, dst, n as int),
            final(self).vram_dma == old(self).vram_dma,
    {
        let mut i: u16 = 0;
        while i < n
            invariant
                self.wf(),
                i <= n,
                copy_ok(*old(self), src, dst, n as int),
                *self == copy_bytes(*old(self), src, dst, i as int),
                self.vram_dma == old(self).vram_dma,
            decreases n - i,
        {
            assert(source_readable(*old(self), src, dst, i as int));
            let v = self.read(src + i);
            proof {
                lemma_low_write_keeps_dma(*self, (dst + i) as u16, v);
            }
            self.write(dst + i, v);
            i = i + 1;
        }
    }

    /// `copy` with each source byte checked before it is read: `false` (the
    /// bus possibly part-way through the copy) when one cannot be read.
    fn try_copy(&mut self, src: u16, dst: u16, n: u32) -> (r: bool)
        requires
            old(self).wf(),
        ensures
            final(self).wf(),
            r ==> copy_ok(*old(self), src, dst, n as int) && *final(self) == copy_bytes(*old(self), src, dst, n as int)
                && final(self).vram_dma == old(self).vram_dma,
            !r ==> !copy_ok(*old(self), src, dst, n as int),
    {
        if src as u64 + n as u64 > 0x10000 || dst as u64 + n as u64 > 0xa000 {
            return false;
        }
        let mut i: u32 = 0;
        while i < n
            invariant
                self.wf(),
                i <= n,
                src + n <= 0x10000,
                dst + n <= 0xa000,
                *self == copy_bytes(*old(self), src, dst, i as int),
                self.vram_dma == old(self).vram_dma,
                forall|j: int| 0 <= j < i ==> #[trigger] source_readable(*old(self), src, dst, j),
            decreases n - i,
        {
            let a = (src as u32 + i) as u16;
            if !self.readable(a) {
                assert(!source_readable(*old(self), src, dst, i as int));
                return false;
            }
            let v = self.read(a);
            proof {
                lemma_low_write_keeps_dma(*self, (dst as u32 + i) as u16, v);
            }
            self.write((dst as u32 + i) as u16, v);
            i = i + 1;
        }
        true
    }

    /// One OAM DMA step.
    pub fn oam_dma_tick(&mut self)
        requires
            old(self).wf(),
            old(self).oam_dma_ok(),
        ensures
            final(self).wf(),
            *final(self) == old(self).after_oam_dma(),
    {
        if self.oam_dma.src == 0 {
            return;
        }
        let v = self.read(self.oam_dma.src);
        let dst = self.oam_dma.dst;
        self.write(dst, v);
        self.oam_dma.src = self.oam_dma.src + 1;
        self.oam_dma.dst = self.oam_dma.dst + 1;
        if self.oam_dma.dst > 0xfe9f {
            self.oam_dma.src = 0;
        }

    }

    /// One VRAM DMA step.
    pub fn vram_dma_tick(&mut self)
        requires
            old(self).wf(),
            old(self).vram_dma_ok(),
        ensures
            final(self).wf(),
            *final(self) == old(self).after_vram_dma(),
    {
        match self.vram_dma.mode {
            VramDMAMode::IDLE => {},
            VramDMAMode::HBLANK => {
                if self.io.ppu.lcd.get_ppu_mode() == PPUMode::HBlank {
                    if self.vram_dma.remaining == 0 {
                        self.vram_dma.mode = VramDMAMode::IDLE;

                        return;
                    }
                    if self.io.ppu.line_x as usize == RESX {
                        let s = self.vram_dma.src;
                        let d = self.vram_dma.dst;
                        assert(s & 0xfff0 == s / 16 * 16 && d & 0x1ff0 == d % 0x2000 / 16 * 16) by { lemma_u16_fields(s); lemma_u16_fields(d); }
                        self.copy(s & 0xfff0, d & 0x1ff0, 16);
                        self.vram_dma.remaining = self.vram_dma.remaining - 1;

                    }
                }
            },
            VramDMAMode::GENERAL => {
                let length = (self.vram_dma.remaining + 1) * 16;
                let s = self.vram_dma.src;
                let d = self.vram_dma.dst;
                assert(s & 0xfff0 == s / 16 * 16 && d & 0x1ff0 == d % 0x2000 / 16 * 16) by { lemma_u16_fields(s); lemma_u16_fields(d); }
                self.copy(s & 0xfff0, d & 0x1ff0, length);
                self.vram_dma.remaining = 0;
                self.vram_dma.mode = VramDMAMode::IDLE;

            },
        }
    }

    /// One DMA step: OAM DMA, then VRAM DMA.
    pub fn tick(&mut self)
        requires
            old(self).wf(),
            old(self).dma_ok(),
        ensures
            final(self).wf(),
            *final(self) == old(self).after_dma(),
    {
        proof {
            reveal(Bus::dma_ok);
            reveal(Bus::after_dma);
        }
        self.oam_dma_tick();
        self.vram_dma_tick();
    }

    /// `vram_dma_tick` with its checks made as it goes: `false` (the bus
    /// possibly part-way through the step) when it cannot run.
    fn try_vram_dma_tick(&mut self) -> (r: bool)
        requires
            old(self).wf(),
        ensures
            final(self).wf(),
            r ==> old(self).vram_dma_ok() && *final(self) == old(self).after_vram_dma(),
            !r ==> !old(self).vram_dma_ok(),
    {
        match self.vram_dma.mode {
            VramDMAMode::IDLE => {},
            VramDMAMode::HBLANK => {
                if self.io.ppu.lcd.get_ppu_mode() == PPUMode::HBlank {
                    if self.vram_dma.remaining == 0 {
                        self.vram_dma.mode = VramDMAMode::IDLE;
                        return true;
                    }
                    if self.io.ppu.line_x as usize == RESX {
                        let s = self.vram_dma.src;
                        let d = self.vram_dma.dst;
                        assert(s & 0xfff0 == s / 16 * 16 && d & 0x1ff0 == d % 0x2000 / 16 * 16) by { lemma_u16_fields(s); lemma_u16_fields(d); }
                        if !self.try_copy(s & 0xfff0, d & 0x1ff0, 16) {
                            return false;
                        }
                        self.vram_dma.remaining = self.vram_dma.remaining - 1;
                    }
                }
            },
            VramDMAMode::GENERAL => {
                if self.vram_dma.remaining >= 0xfff {
                    return false;
                }
                let length = (self.vram_dma.remaining as u32 + 1) * 16;
                let s = self.vram_dma.src;
                let d = self.vram_dma.dst;
                assert(s & 0xfff0 == s / 16 * 16 && d & 0x1ff0 == d % 0x2000 / 16 * 16) by { lemma_u16_fields(s); lemma_u16_fields(d); }
                if !self.try_copy(s & 0xfff0, d & 0x1ff0, length) {
                    return false;
                }
                self.vram_dma.remaining = 0;
                self.vram_dma.mode = VramDMAMode::IDLE;
            },
        }
        true
    }

    /// `tick` with its checks made as it goes: `false` (the bus possibly
    /// part-way through the step) when it cannot run.
    pub fn try_tick(&mut self) -> (r: bool)
        requires
            old(self).wf(),
        ensures
            final(self).wf(),
            r ==> old(self).dma_ok() && *final(self) == old(self).after_dma(),
            !r ==> !old(self).dma_ok(),
    {
        proof {
            reveal(Bus::dma_ok);
            reveal(Bus::after_dma);
        }
        if self.oam_dma.src != 0 {
            if !self.readable(self.oam_dma.src) {
                return false;
            }
            let v = self.read(self.oam_dma.src);
            let dst = self.oam_dma.dst;
            self.write(dst, v);
            if self.oam_dma.src == 0xffff || self.oam_dma.dst == 0xffff {
                return false;
            }
            self.oam_dma.src = self.oam_dma.src + 1;
            self.oam_dma.dst = self.oam_dma.dst + 1;
            if self.oam_dma.dst > 0xfe9f {
                self.oam_dma.src = 0;
            }
        }
        self.try_vram_dma_tick()
    }
}

} // verus!
