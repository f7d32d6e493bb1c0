use vstd::prelude::*;
use crate::bits::{lemma_u8_fields};
use crate::io::video::lcd::{LCD, PPUMode};

verus! {

pub const LINES_PER_FRAME: u8 = 154;
pub const TICKS_PER_LINE: u16 = 456;
pub const RESX: usize = 160;
pub const RESY: usize = 144;

#[allow(non_camel_case_types)]
#[derive(Debug, Clone, Copy, PartialEq, Eq, Structural)]
pub enum PPU_LAYER {
    BACKGROUND,
    WINDOW,
    SPRITE,
}

/// Sprite attribute bits.
pub const DMG_PALETTE: u8 = 0x10;
pub const X_FLIP: u8 = 0x20;
pub const Y_FLIP: u8 = 0x40;
pub const PRIORITY: u8 = 0x80;

/// One OAM entry.
#[derive(Clone, Copy, Debug, PartialEq, Eq, Structural)]
pub struct Sprite {
    pub y: u8,
    pub x: u8,
    pub tile_idx: u8,
    pub flags: u8,
}

impl Sprite {
    pub fn new() -> (r: Self)
        ensures
            r == (Sprite { y: 0, x: 0, tile_idx: 0, flags: 0 }),
    {
        Sprite { y: 0, x: 0, tile_idx: 0, flags: 0 }
    }
}

/// Field `field` (0: y, 1: x, 2: tile, 3: attributes) of a sprite.
pub open spec fn sprite_field(s: Sprite, field: int) -> u8 {
    if field == 0 { s.y } else if field == 1 { s.x } else if field == 2 { s.tile_idx } else { s.flags }
}

/// A sprite with field `field` replaced by `value`.
pub open spec fn with_sprite_field(s: Sprite, field: int, value: u8) -> Sprite {
    if field == 0 {
        Sprite { y: value, ..s }
    } else if field == 1 {
        Sprite { x: value, ..s }
    } else if field == 2 {
        Sprite { tile_idx: value, ..s }
    } else {
        Sprite { flags: value, ..s }
    }
}

/// The picture processing unit: VRAM (two banks), OAM and the LCD registers,
/// and the scanline state of the renderer.
pub struct PPU {
    pub oam: [Sprite; 40],
    /// Both VRAM banks, bank `b` at offsets `b * 0x2000 ..`.
    pub vram: [u8; 0x4000],
    pub vram_bank: u8,
    pub lcd: LCD,
    pub line_ticks: u16,
    pub line_x: u8,
    /// The sprites of the current line (the first `line_sprite_count`), once
    /// `sprites_scanned`.
    pub line_sprites: [Sprite; 10],
    pub line_sprite_count: usize,
    pub sprites_scanned: bool,
    pub window_line: u8,
    pub window_drawn: bool,
    /// The frame being drawn, one shade per pixel, row by row.
    pub vbuf: [u8; 23040],
    pub frames: u64,
    pub draw_background: bool,
    pub draw_window: bool,
    pub draw_sprites: bool,
}

impl PPU {
    pub open spec fn wf(&self) -> bool {
        &&& self.lcd.wf()
        &&& self.vram_bank <= 1
        &&& self.line_sprite_count <= 10
    }

    /// The sprites found for the current line.
    pub open spec fn line_sprite_seq(&self) -> Seq<Sprite> {
        self.line_sprites@.subrange(0, self.line_sprite_count as int)
    }

    pub open spec fn handles(addr: u16) -> bool {
        0x8000 <= addr <= 0x9fff || 0xfe00 <= addr <= 0xfe9f || addr == 0xff4f
    }

    /// Offset in `vram` of a VRAM address in the current bank.
    pub open spec fn vram_offset(&self, addr: u16) -> int {
        self.vram_bank * 0x2000 + (addr - 0x8000)
    }

    /// The byte a read at `addr` returns.
    pub open spec fn read_value(&self, addr: u16) -> u8 {
        if 0x8000 <= addr <= 0x9fff {
            self.vram@[self.vram_offset(addr)]
        } else if 0xfe00 <= addr <= 0xfe9f {
            sprite_field(self.oam@[(addr - 0xfe00) / 4], (addr - 0xfe00) % 4)
        } else {
            (0xfe + self.vram_bank) as u8
        }
    }

    /// The state after a write of `value` at `addr`.
    pub open spec fn after_write(self, addr: u16, value: u8) -> PPU {
        if 0x8000 <= addr <= 0x9fff {
            PPU { vram: vstd::array::spec_array_update(self.vram, self.vram_offset(addr), value), ..self }
        } else if 0xfe00 <= addr <= 0xfe9f {
            let i = (addr - 0xfe00) / 4;
            PPU {
                oam: vstd::array::spec_array_update(
                    self.oam,
                    i,
                    with_sprite_field(self.oam@[i], (addr - 0xfe00) % 4, value),
                ),
                ..self
            }
        } else {
            PPU { vram_bank: value % 2, ..self }
        }
    }

    /// The power-on state: OAM scan of line 0, VRAM and OAM clear, a white
    /// frame, every layer shown.
    pub open spec fn power_on(&self) -> bool {
        &&& self.lcd.mode_spec() == PPUMode::OAMScan
        &&& self.lcd.lcdc == 0x91 && self.lcd.ly == 0 && self.lcd.lyc == 0
        &&& self.lcd.scx == 0 && self.lcd.scy == 0 && self.lcd.dmg_bg_palette == 0xfc
        &&& self.vram_bank == 0 && self.line_ticks == 0 && self.line_x == 0 && self.window_line == 0
        &&& !self.sprites_scanned && self.line_sprite_count == 0 && !self.window_drawn && self.frames == 0
        &&& self.draw_background && self.draw_window && self.draw_sprites
        &&& forall|i: int| 0 <= i < 0x4000 ==> self.vram@[i] == 0
        &&& forall|i: int| 0 <= i < 40 ==> self.oam@[i] == (Sprite { y: 0, x: 0, tile_idx: 0, flags: 0 })
        &&& forall|i: int| 0 <= i < 23040 ==> self.vbuf@[i] == 0xff
    }

    pub fn new() -> (r: Self)
        ensures
            r.wf(),
            r.power_on(),
            r.lcd.mode_spec() == PPUMode::OAMScan,
            r.vram_bank == 0 && r.line_ticks == 0 && r.line_x == 0 && r.window_line == 0,
            !r.sprites_scanned && r.line_sprite_count == 0 && !r.window_drawn && r.frames == 0,
            r.draw_background && r.draw_window && r.draw_sprites,
            forall|i: int| 0 <= i < 0x4000 ==> r.vram@[i] == 0,
            forall|i: int| 0 <= i < 40 ==> r.oam@[i] == (Sprite { y: 0, x: 0, tile_idx: 0, flags: 0 }),
            forall|i: int| 0 <= i < 23040 ==> r.vbuf@[i] == 0xff,
    {
        let mut lcd = LCD::default();
        lcd.set_ppu_mode(PPUMode::OAMScan);
        PPU {
            oam: [Sprite { y: 0, x: 0, tile_idx: 0, flags: 0 }; 40],
            vram: [0; 0x4000],
            vram_bank: 0,
            lcd,
            line_ticks: 0,
            line_x: 0,
            line_sprites: [Sprite { y: 0, x: 0, tile_idx: 0, flags: 0 }; 10],
            line_sprite_count: 0,
            sprites_scanned: false,
            window_line: 0,
            window_drawn: false,
            vbuf: [0xff; 23040],
            frames: 0,
            draw_background: true,
            draw_window: true,
            draw_sprites: true,
        }
    }

    /// A write to VRAM (current bank), OAM or VBK.
    pub fn write(&mut self, addr: u16, value: u8)
        requires
            old(self).wf(),
            Self::handles(addr),
        ensures
            final(self).wf(),
            *final(self) == old(self).after_write(addr, value),
    {
        if 0x8000 <= addr && addr <= 0x9fff {
            self.vram_write(addr, value);
        } else if 0xfe00 <= addr && addr <= 0xfe9f {
            self.oam_write(addr, value);
        } else {
            assert(value & 1 == value % 2) by { lemma_u8_fields(value); }
            self.vram_bank = value & 0x1;
        }
    }

    /// A read of VRAM (current bank), OAM or VBK (upper bits read 1).
    pub fn read(&self, addr: u16) -> (r: u8)
        requires
            self.wf(),
            Self::handles(addr),
        ensures
            r == self.read_value(addr),
    {
        if 0x8000 <= addr && addr <= 0x9fff {
            self.vram_read(addr)
        } else if 0xfe00 <= addr && addr <= 0xfe9f {
            self.oam_read(addr)
        } else {
            let b = self.vram_bank;
            assert(0xfe | b == 0xfe + b) by { lemma_u8_fields(b); }
            0xfe | self.vram_bank
        }
    }

    fn oam_write(&mut self, addr: u16, value: u8)
        requires
            old(self).wf(),
            0xfe00 <= addr <= 0xfe9f,
        ensures
            final(self).wf(),
            *final(self) == old(self).after_write(addr, value),
    {
        let off = addr - 0xfe00;
        let i = (off / 4) as usize;
        let mut s = self.oam[i];
        let field = off % 4;
        if field == 0 {
            s.y = value;
        } else if field == 1 {
            s.x = value;
        } else if field == 2 {
            s.tile_idx = value;
        } else {
            s.flags = value;
        }
        self.oam[i] = s;
    }

    fn oam_read(&self, addr: u16) -> (r: u8)
        requires
            0xfe00 <= addr <= 0xfe9f,
        ensures
            r == sprite_field(self.oam@[(addr - 0xfe00) / 4], (addr - 0xfe00) % 4),
    {
        let off = addr - 0xfe00;
        let s = self.oam[(off / 4) as usize];
        let field = off % 4;
        if field == 0 {
            s.y
        } else if field == 1 {
            s.x
        } else if field == 2 {
            s.tile_idx
        } else {
            s.flags
        }
    }

    fn vram_write(&mut self, addr: u16, value: u8)
        requires
            old(self).wf(),
            0x8000 <= addr <= 0x9fff,
        ensures
            final(self).wf(),
            *final(self) == old(self).after_write(addr, value),
    {
        self.vram[self.vram_bank as usize * 0x2000 + (addr - 0x8000) as usize] = value;
    }

    fn vram_read(&self, addr: u16) -> (r: u8)
        requires
            self.wf(),
            0x8000 <= addr <= 0x9fff,
        ensures
            r == self.vram@[self.vram_offset(addr)],
    {
        self.vram[self.vram_bank as usize * 0x2000 + (addr - 0x8000) as usize]
    }

    /// Toggles the drawing of one layer.
    pub fn hide_layer(&mut self, layer: PPU_LAYER)
        ensures
            layer == PPU_LAYER::BACKGROUND ==> final(self).draw_background == !old(self).draw_background
                && final(self).draw_window == old(self).draw_window
                && final(self).draw_sprites == old(self).draw_sprites,
            layer == PPU_LAYER::WINDOW ==> final(self).draw_window == !old(self).draw_window
                && final(self).draw_background == old(self).draw_background
                && final(self).draw_sprites == old(self).draw_sprites,
            layer == PPU_LAYER::SPRITE ==> final(self).draw_sprites == !old(self).draw_sprites
                && final(self).draw_background == old(self).draw_background
                && final(self).draw_window == old(self).draw_window,
            final(self).lcd == old(self).lcd && final(self).vram == old(self).vram,
            final(self).oam == old(self).oam && final(self).vbuf == old(self).vbuf,
    {
        match layer {
            PPU_LAYER::BACKGROUND => self.draw_background = !self.draw_background,
            PPU_LAYER::WINDOW => self.draw_window = !self.draw_window,
            PPU_LAYER::SPRITE => self.draw_sprites = !self.draw_sprites,
        }
    }
}

} // verus!
