use vstd::prelude::*;
use crate::bits::{lemma_stat_bits, lemma_u16_fields, lemma_u16_join, lemma_u8_fields, lemma_widen5};
use crate::cpu::interrupts::{request_interrupt, Interrupts, STAT};

verus! {

/// LCDC bits.
pub const LCD_PPU_ENABLE: u8 = 0x80;
pub const WINDOW_TILE_MAP: u8 = 0x40;
pub const WINDOW_ENABLE: u8 = 0x20;
pub const WINDOW_BG_ADDRESSING_MODE: u8 = 0x10;
pub const BG_TILE_MAP: u8 = 0x8;
pub const OBJ_SIZE: u8 = 0x4;
pub const OBJ_ENABLE: u8 = 0x2;
pub const WINDOW_BG_ENABLE: u8 = 0x1;

/// STAT bits.
pub const MODE_LYC_EQ_LY_STAT: u8 = 0x40;
pub const MODE_OAM_STAT: u8 = 0x20;
pub const MODE_VBLANK_STAT: u8 = 0x10;
pub const MODE_HBLANK_STAT: u8 = 0x8;
pub const LYC_EQ_LY: u8 = 0x4;
pub const PPU_MODE: u8 = 0x3;

/// The four DMG shades, lightest first.
pub open spec fn dmg_colors() -> Seq<u8> {
    seq![0xffu8, 0xaa, 0x55, 0x00]
}

/// An RGB colour.
#[derive(Clone, Copy, Debug, PartialEq, Eq, Structural)]
pub struct Pixel {
    pub r: u8,
    pub g: u8,
    pub b: u8,
}

/// A 5-bit colour component widened to 8 bits (`c << 3 | c >> 2`).
pub open spec fn widen5(c: u8) -> u8 {
    ((c * 8) % 256 + c / 4) as u8
}

/// The colour of a CGB palette entry given its two bytes in palette memory
/// order: the word `(first << 8 | second) >> 1` holds blue in bits 0-4, green in
/// bits 5-9 and red in bits 10-14.
pub open spec fn cram_color(first: u8, second: u8) -> Pixel {
    let w: int = (first * 256 + second) / 2;
    Pixel { r: widen5((w / 1024 % 32) as u8), g: widen5((w / 32 % 32) as u8), b: widen5((w % 32) as u8) }
}

fn widen(c: u8) -> (r: u8)
    requires
        c < 32,
    ensures
        r == widen5(c),
{
    assert((c << 3u8) | (c >> 2u8) == (c * 8) % 256 + c / 4) by { lemma_widen5(c); }
    (c << 3) | (c >> 2)
}

impl From<(u8, u8)> for Pixel {
    fn from(value: (u8, u8)) -> (r: Self) {
        let mut w: u16 = ((value.0 as u16) << 8) | value.1 as u16;
        w = w >> 1;
        let b = (w as u8) & 0x1f;
        let g = ((w >> 5) & 0x1f) as u8;
        let r = ((w >> 10) & 0x1f) as u8;
        let x = value.0;
        let y = value.1;
        assert((((x as u16) << 8u16) | (y as u16)) >> 1u16 == (x * 256 + y) / 2) by { lemma_u16_join(x, y); }
        assert(w & 0x1f == w % 32) by { lemma_u16_fields(w); }
        assert((w as u8) & 0x1f == w % 32) by { lemma_u16_fields(w); }
        assert((w >> 5u16) & 0x1f == w / 32 % 32) by { lemma_u16_fields(w); }
        assert((w >> 10u16) & 0x1f == w / 1024 % 32) by { lemma_u16_fields(w); }
        Pixel { r: widen(r), g: widen(g), b: widen(b) }
    }
}

impl vstd::std_specs::convert::FromSpecImpl<(u8, u8)> for Pixel {
    open spec fn obeys_from_spec() -> bool {
        true
    }

    open spec fn from_spec(v: (u8, u8)) -> Pixel {
        cram_color(v.0, v.1)
    }
}

#[derive(Clone, Copy, Debug, PartialEq, Eq, Structural)]
pub enum PPUMode {
    VBlank,
    OAMScan,
    Draw,
    HBlank,
}

/// The STAT mode number of a PPU mode.
pub open spec fn mode_number(mode: PPUMode) -> u8 {
    match mode {
        PPUMode::HBlank => 0,
        PPUMode::VBlank => 1,
        PPUMode::OAMScan => 2,
        PPUMode::Draw => 3,
    }
}

/// The PPU mode of a STAT mode number.
pub open spec fn mode_of(n: u8) -> PPUMode {
    if n == 0 {
        PPUMode::HBlank
    } else if n == 1 {
        PPUMode::VBlank
    } else if n == 2 {
        PPUMode::OAMScan
    } else {
        PPUMode::Draw
    }
}

/// BCPS/OCPS: palette memory index with optional auto-increment.
#[derive(Clone, Copy, Debug, PartialEq, Eq, Structural)]
pub struct PaletteIndex {
    pub auto_increment: bool,
    pub addr: usize,
}

impl PaletteIndex {
    pub open spec fn wf(&self) -> bool {
        self.addr < 0x40
    }

    /// The index after an access: one further when auto-increment is on and the
    /// end (0x3F) is not reached.
    pub open spec fn advanced(self) -> PaletteIndex {
        if self.auto_increment && self.addr < 0x3f {
            PaletteIndex { addr: (self.addr + 1) as usize, ..self }
        } else {
            self
        }
    }

    /// The index, advancing it afterwards when auto-increment is on and the end
    /// (0x3F) is not reached.
    pub fn get(&mut self) -> (r: usize)
        requires
            old(self).wf(),
        ensures
            final(self).wf(),
            *final(self) == old(self).advanced(),
            r == old(self).addr,
            final(self).auto_increment == old(self).auto_increment,
            final(self).addr == if old(self).auto_increment && old(self).addr < 0x3f {
                old(self).addr + 1
            } else {
                old(self).addr as int
            },
    {
        let addr = self.addr;
        if self.auto_increment && self.addr < 0x3f {
            self.addr = self.addr + 1;
        }
        addr
    }
}

/// The palette index that a BCPS/OCPS write of `v` selects: auto-increment in
/// bit 7, index in bits 0-5.
pub open spec fn palette_index_of(v: u8) -> PaletteIndex {
    PaletteIndex { auto_increment: v >= 128, addr: (v % 64) as usize }
}

impl From<u8> for PaletteIndex {
    fn from(value: u8) -> (r: Self) {
        assert((value as usize) & 0x3f == value % 64) by { lemma_u8_fields(value); }
        assert((value & 0x80 == 0x80) == (value >= 128)) by { lemma_u8_fields(value); }
        PaletteIndex { auto_increment: value & 0x80 == 0x80, addr: (value as usize) & 0x3f }
    }
}

impl vstd::std_specs::convert::FromSpecImpl<u8> for PaletteIndex {
    open spec fn obeys_from_spec() -> bool {
        true
    }

    open spec fn from_spec(v: u8) -> PaletteIndex {
        palette_index_of(v)
    }
}

/// The BCPS/OCPS byte of a palette index: auto-increment in bit 7, index below.
pub open spec fn palette_index_byte(p: PaletteIndex) -> u8 {
    (if p.auto_increment { 0x80u8 } else { 0u8 }) | (p.addr as u8)
}

impl From<PaletteIndex> for u8 {
    fn from(value: PaletteIndex) -> (r: Self) {
        let hi: u8 = if value.auto_increment { 0x80 } else { 0 };
        hi | #[verifier::truncate] (value.addr as u8)
    }
}

impl vstd::std_specs::convert::FromSpecImpl<PaletteIndex> for u8 {
    open spec fn obeys_from_spec() -> bool {
        true
    }

    open spec fn from_spec(v: PaletteIndex) -> u8 {
        palette_index_byte(v)
    }
}

/// The LCD registers and CGB palette memory.
pub struct LCD {
    pub lcdc: u8,
    pub lcds: u8,
    pub scy: u8,
    pub scx: u8,
    pub ly: u8,
    pub lyc: u8,
    pub dmg_bg_palette: u8,
    pub dmg_obj_palettes: [u8; 2],
    pub bg_palette_index: PaletteIndex,
    pub bg_cram: [u8; 0x40],
    pub obj_palette_index: PaletteIndex,
    pub obj_cram: [u8; 0x40],
    pub wy: u8,
    pub wx: u8,
}

impl Default for LCD {
    fn default() -> (r: Self)
        ensures
            r.wf(),
            r.lcdc == 0x91 && r.lcds == 0 && r.scy == 0 && r.scx == 0 && r.ly == 0 && r.lyc == 0,
            r.dmg_bg_palette == 0xfc,
            r.dmg_obj_palettes@ == seq![0xffu8, 0xff],
            r.bg_palette_index == (PaletteIndex { auto_increment: false, addr: 0 }),
            r.obj_palette_index == (PaletteIndex { auto_increment: false, addr: 0 }),
            forall|i: int| 0 <= i < 0x40 ==> r.bg_cram@[i] == 0xff && r.obj_cram@[i] == 0,
            r.wy == 0 && r.wx == 0,
    {
        LCD {
            lcdc: 0x91,
            lcds: 0,
            scy: 0,
            scx: 0,
            ly: 0,
            lyc: 0,
            dmg_bg_palette: 0xfc,
            dmg_obj_palettes: [0xff, 0xff],
            bg_palette_index: PaletteIndex { auto_increment: false, addr: 0 },
            bg_cram: [0xff; 0x40],
            obj_palette_index: PaletteIndex { auto_increment: false, addr: 0 },
            obj_cram: [0; 0x40],
            wy: 0,
            wx: 0,
        }
    }
}

impl LCD {
    pub open spec fn wf(&self) -> bool {
        self.bg_palette_index.wf() && self.obj_palette_index.wf()
    }

    /// The registers this block answers.
    pub open spec fn handles(addr: u16) -> bool {
        ||| 0xff40 <= addr <= 0xff45
        ||| 0xff47 <= addr <= 0xff4b
        ||| 0xff68 <= addr <= 0xff6b
    }

    pub open spec fn mode_spec(&self) -> PPUMode {
        mode_of(self.lcds & PPU_MODE)
    }

    /// The byte a read at `addr` returns.
    pub open spec fn read_value(&self, addr: u16) -> u8 {
        if addr == 0xff40 { self.lcdc }
        else if addr == 0xff41 { self.lcds }
        else if addr == 0xff42 { self.scy }
        else if addr == 0xff43 { self.scx }
        else if addr == 0xff44 { self.ly }
        else if addr == 0xff45 { self.lyc }
        else if addr == 0xff47 { self.dmg_bg_palette }
        else if addr == 0xff48 { self.dmg_obj_palettes@[0] }
        else if addr == 0xff49 { self.dmg_obj_palettes@[1] }
        else if addr == 0xff4a { self.wy }
        else if addr == 0xff4b { self.wx }
        else if addr == 0xff68 { palette_index_byte(self.bg_palette_index) }
        else if addr == 0xff69 { self.bg_cram@[self.bg_palette_index.addr as int] }
        else if addr == 0xff6a { palette_index_byte(self.obj_palette_index) }
        else { self.obj_cram@[self.obj_palette_index.addr as int] }
    }

    /// The state after a register write of `value` at `addr`.
    pub open spec fn after_write(self, addr: u16, value: u8) -> LCD {
        if addr == 0xff40 { LCD { lcdc: value, ..self } }
        else if addr == 0xff41 { LCD { lcds: value, ..self } }
        else if addr == 0xff42 { LCD { scy: value, ..self } }
        else if addr == 0xff43 { LCD { scx: value, ..self } }
        else if addr == 0xff44 { LCD { ly: value, ..self } }
        else if addr == 0xff45 { LCD { lyc: value, ..self } }
        else if addr == 0xff47 { LCD { dmg_bg_palette: value, ..self } }
        else if addr == 0xff48 {
            LCD { dmg_obj_palettes: vstd::array::spec_array_update(self.dmg_obj_palettes, 0, value), ..self }
        } else if addr == 0xff49 {
            LCD { dmg_obj_palettes: vstd::array::spec_array_update(self.dmg_obj_palettes, 1, value), ..self }
        } else if addr == 0xff4a { LCD { wy: value, ..self } }
        else if addr == 0xff4b { LCD { wx: value, ..self } }
        else if addr == 0xff68 { LCD { bg_palette_index: palette_index_of(value), ..self } }
        else if addr == 0xff69 {
            LCD {
                bg_cram: vstd::array::spec_array_update(self.bg_cram, self.bg_palette_index.addr as int, value),
                bg_palette_index: self.bg_palette_index.advanced(),
                ..self
            }
        } else if addr == 0xff6a { LCD { obj_palette_index: palette_index_of(value), ..self } }
        else {
            LCD {
                obj_cram: vstd::array::spec_array_update(self.obj_cram, self.obj_palette_index.addr as int, value),
                obj_palette_index: self.obj_palette_index.advanced(),
                ..self
            }
        }
    }

    /// The state after the PPU mode bits are set to `mode`.
    pub open spec fn with_mode(self, mode: PPUMode) -> LCD {
        LCD { lcds: (self.lcds & 0xfc) | mode_number(mode), ..self }
    }

    /// The state after LY advances.
    pub open spec fn after_inc_ly(self) -> LCD {
        let ly = (self.ly + 1) as u8;
        LCD {
            ly: ly,
            lcds: if ly == self.lyc { self.lcds | LYC_EQ_LY } else { self.lcds & !LYC_EQ_LY },
            ..self
        }
    }

    /// Whether advancing LY requests the STAT interrupt.
    pub open spec fn inc_ly_requests_stat(self) -> bool {
        (self.ly + 1) as u8 == self.lyc && self.lcds & MODE_LYC_EQ_LY_STAT == MODE_LYC_EQ_LY_STAT
    }

    pub fn read(&self, addr: u16) -> (r: u8)
        requires
            self.wf(),
            Self::handles(addr),
        ensures
            r == self.read_value(addr),
    {
        if addr == 0xff40 { self.lcdc }
        else if addr == 0xff41 { self.lcds }
        else if addr == 0xff42 { self.scy }
        else if addr == 0xff43 { self.scx }
        else if addr == 0xff44 { self.ly }
        else if addr == 0xff45 { self.lyc }
        else if addr == 0xff47 { self.dmg_bg_palette }
        else if addr == 0xff48 { self.dmg_obj_palettes[0] }
        else if addr == 0xff49 { self.dmg_obj_palettes[1] }
        else if addr == 0xff4a { self.wy }
        else if addr == 0xff4b { self.wx }
        else if addr == 0xff68 { self.bg_palette_index.into() }
        else if addr == 0xff69 { self.bg_cram[self.bg_palette_index.addr] }
        else if addr == 0xff6a { self.obj_palette_index.into() }
        else { self.obj_cram[self.obj_palette_index.addr] }
    }

    /// Register write; writes to BCPD/OCPD store at the palette index, which
    /// then auto-increments.
    pub fn write(&mut self, addr: u16, value: u8)
        requires
            old(self).wf(),
            Self::handles(addr),
        ensures
            final(self).wf(),
            *final(self) == old(self).after_write(addr, value),
            final(self).read_value(addr) == value || addr == 0xff68 || addr == 0xff6a
                || addr == 0xff69 || addr == 0xff6b,
            addr == 0xff68 ==> final(self).bg_palette_index == palette_index_of(value),
            addr == 0xff6a ==> final(self).obj_palette_index == palette_index_of(value),
            addr == 0xff69 ==> {
                &&& final(self).bg_cram@ == old(self).bg_cram@.update(old(self).bg_palette_index.addr as int, value)
                &&& final(self).bg_palette_index.addr == if old(self).bg_palette_index.auto_increment
                    && old(self).bg_palette_index.addr < 0x3f {
                    old(self).bg_palette_index.addr + 1
                } else {
                    old(self).bg_palette_index.addr as int
                }
            },
            addr == 0xff6b ==> {
                &&& final(self).obj_cram@ == old(self).obj_cram@.update(old(self).obj_palette_index.addr as int, value)
                &&& final(self).obj_palette_index.addr == if old(self).obj_palette_index.auto_increment
                    && old(self).obj_palette_index.addr < 0x3f {
                    old(self).obj_palette_index.addr + 1
                } else {
                    old(self).obj_palette_index.addr as int
                }
            },
            addr != 0xff69 ==> final(self).bg_cram@ == old(self).bg_cram@,
            addr != 0xff6b ==> final(self).obj_cram@ == old(self).obj_cram@,
            forall|a: u16| Self::handles(a) && a != addr && a != 0xff68 && a != 0xff69 && a != 0xff6a
                && a != 0xff6b ==> #[trigger] final(self).read_value(a) == old(self).read_value(a),
    {
        if addr == 0xff40 { self.lcdc = value; }
        else if addr == 0xff41 { self.lcds = value; }
        else if addr == 0xff42 { self.scy = value; }
        else if addr == 0xff43 { self.scx = value; }
        else if addr == 0xff44 { self.ly = value; }
        else if addr == 0xff45 { self.lyc = value; }
        else if addr == 0xff47 { self.dmg_bg_palette = value; }
        else if addr == 0xff48 { self.dmg_obj_palettes[0] = value; }
        else if addr == 0xff49 { self.dmg_obj_palettes[1] = value; }
        else if addr == 0xff4a { self.wy = value; }
        else if addr == 0xff4b { self.wx = value; }
        else if addr == 0xff68 { self.bg_palette_index = value.into(); }
        else if addr == 0xff69 {
            let i = self.bg_palette_index.get();
            self.bg_cram[i] = value;
        } else if addr == 0xff6a { self.obj_palette_index = value.into(); }
        else {
            let i = self.obj_palette_index.get();
            self.obj_cram[i] = value;
        }
    }

    pub fn get_ppu_mode(&self) -> (r: PPUMode)
        ensures
            r == self.mode_spec(),
    {
        let m = self.lcds & PPU_MODE;
        if m == 0 {
            PPUMode::HBlank
        } else if m == 1 {
            PPUMode::VBlank
        } else if m == 2 {
            PPUMode::OAMScan
        } else {
            PPUMode::Draw
        }
    }

    /// Stores the mode number in the two low STAT bits.
    pub fn set_ppu_mode(&mut self, mode: PPUMode)
        ensures
            *final(self) == old(self).with_mode(mode),
            final(self).lcds == (old(self).lcds & 0xfc) | mode_number(mode),
            final(self).mode_spec() == mode,
            final(self).lcdc == old(self).lcdc && final(self).ly == old(self).ly,
            final(self).lyc == old(self).lyc,
            final(self).scx == old(self).scx && final(self).scy == old(self).scy,
            final(self).wx == old(self).wx && final(self).wy == old(self).wy,
            final(self).dmg_bg_palette == old(self).dmg_bg_palette,
            final(self).dmg_obj_palettes == old(self).dmg_obj_palettes,
            final(self).bg_palette_index == old(self).bg_palette_index,
            final(self).obj_palette_index == old(self).obj_palette_index,
            final(self).bg_cram == old(self).bg_cram,
            final(self).obj_cram == old(self).obj_cram,
    {
        let val: u8 = match mode {
            PPUMode::HBlank => 0,
            PPUMode::VBlank => 1,
            PPUMode::OAMScan => 2,
            PPUMode::Draw => 3,
        };
        let l = self.lcds;
        assert(((l & 0xfc) | val) & 3 == val) by { lemma_stat_bits(l, val); }
        self.lcds = (self.lcds & 0xfc) | val;
    }

    /// Next line: LY advances; when it matches LYC the coincidence flag is set
    /// (and the STAT interrupt requested if enabled), else it is cleared.
    pub fn inc_ly(&mut self, ints: &mut Interrupts)
        requires
            old(self).ly < 255,
        ensures
            *final(self) == old(self).after_inc_ly(),
            final(ints).flags == if old(self).inc_ly_requests_stat() {
                old(ints).flags | STAT
            } else {
                old(ints).flags
            },
            final(self).ly == old(self).ly + 1,
            final(self).ly == old(self).lyc ==> {
                &&& final(self).lcds == old(self).lcds | LYC_EQ_LY
                &&& final(ints).flags == if old(self).lcds & MODE_LYC_EQ_LY_STAT == MODE_LYC_EQ_LY_STAT {
                    old(ints).flags | STAT
                } else {
                    old(ints).flags
                }
            },
            final(self).ly != old(self).lyc ==> {
                &&& final(self).lcds == old(self).lcds & !LYC_EQ_LY
                &&& final(ints).flags == old(ints).flags
            },
            final(ints).enable == old(ints).enable,
            final(self).lcds & PPU_MODE == old(self).lcds & PPU_MODE,
            final(self).lcdc == old(self).lcdc,
            final(self).lyc == old(self).lyc,
            final(self).scx == old(self).scx && final(self).scy == old(self).scy,
            final(self).wx == old(self).wx && final(self).wy == old(self).wy,
            final(self).dmg_bg_palette == old(self).dmg_bg_palette,
            final(self).dmg_obj_palettes == old(self).dmg_obj_palettes,
            final(self).bg_palette_index == old(self).bg_palette_index,
            final(self).obj_palette_index == old(self).obj_palette_index,
            final(self).bg_cram == old(self).bg_cram,
            final(self).obj_cram == old(self).obj_cram,
    {
        self.ly = self.ly + 1;
        let l = self.lcds;
        if self.ly == self.lyc {
            assert((l | 4) & 3 == l & 3) by { lemma_stat_bits(l, 0); }
            self.lcds = self.lcds | LYC_EQ_LY;
            if self.lcds & MODE_LYC_EQ_LY_STAT == MODE_LYC_EQ_LY_STAT {
                assert(((l | 4) & 0x40 == 0x40) == (l & 0x40 == 0x40)) by { lemma_stat_bits(l, 0); }
                request_interrupt(ints, STAT);
            } else {
                assert(((l | 4) & 0x40 == 0x40) == (l & 0x40 == 0x40)) by { lemma_stat_bits(l, 0); }
            }
        } else {
            assert((l & !4u8) & 3 == l & 3) by { lemma_stat_bits(l, 0); }
            self.lcds = self.lcds & !LYC_EQ_LY;
        }
    }

    /// The DMG shade of colour number `idx`.
    pub fn get_dmg_pixel(idx: u8) -> (r: u8)
        requires
            idx < 4,
        ensures
            r == dmg_colors()[idx as int],
    {
        let colors: [u8; 4] = [0xff, 0xaa, 0x55, 0x00];
        assert(colors@ == dmg_colors());
        colors[idx as usize]
    }

    /// The colour of entry `color_idx` of background palette `palette_idx`.
    pub fn get_cgb_bg_pixel(&self, palette_idx: usize, color_idx: usize) -> (r: Pixel)
        requires
            palette_idx * 8 + color_idx * 2 + 1 < 0x40,
        ensures
            r == cram_color(
                self.bg_cram@[palette_idx * 8 + color_idx * 2],
                self.bg_cram@[palette_idx * 8 + color_idx * 2 + 1],
            ),
    {
        let t = (self.bg_cram[palette_idx * 8 + color_idx * 2], self.bg_cram[palette_idx * 8 + color_idx * 2 + 1]);
        Pixel::from(t)
    }

    /// The colour of entry `color_idx` of object palette `palette_idx`.
    pub fn get_cgb_obj_pixel(&self, palette_idx: usize, color_idx: usize) -> (r: Pixel)
        requires
            palette_idx * 8 + color_idx * 2 + 1 < 0x40,
        ensures
            r == cram_color(
                self.obj_cram@[palette_idx * 8 + color_idx * 2],
                self.obj_cram@[palette_idx * 8 + color_idx * 2 + 1],
            ),
    {
        let t = (self.obj_cram[palette_idx * 8 + color_idx * 2], self.obj_cram[palette_idx * 8 + color_idx * 2 + 1]);
        Pixel::from(t)
    }
}

} // verus!
