use vstd::prelude::*;
use crate::bits::lemma_u8_fields;
use vstd::arithmetic::power2::{lemma2_to64, pow2};
use crate::io::video::lcd::{
    dmg_colors, LCD, BG_TILE_MAP, OBJ_ENABLE, OBJ_SIZE, WINDOW_BG_ADDRESSING_MODE, WINDOW_BG_ENABLE,
    WINDOW_ENABLE, WINDOW_TILE_MAP,
};
use crate::io::video::ppu::{Sprite, DMG_PALETTE, PPU, PRIORITY, RESX, RESY, X_FLIP, Y_FLIP};

verus! {

/// Colour number (0-3) of bit `bit` of a tile row given by its two bytes.
pub open spec fn tile_color(lo: u8, hi: u8, bit: int) -> u8 {
    (((hi >> (bit as u8)) & 1) * 2 + ((lo >> (bit as u8)) & 1)) as u8
}

/// The shade palette `palette` gives colour number `color`.
pub open spec fn shade(palette: u8, color: u8) -> u8 {
    dmg_colors()[((palette >> (color * 2)) & 3) as int]
}

fn tile_color_compute(lo: u8, hi: u8, bit: u8) -> (r: u8)
    requires
        bit < 8,
    ensures
        r == tile_color(lo, hi, bit as int),
        r < 4,
{
    let h = (hi >> bit) & 1;
    let l = (lo >> bit) & 1;
    assert(h <= 1 && l <= 1) by { lemma_u8_fields(hi >> bit); lemma_u8_fields(lo >> bit); }
    h * 2 + l
}

fn shade_compute(palette: u8, color: u8) -> (r: u8)
    requires
        color < 4,
    ensures
        r == shade(palette, color),
{
    let i = (palette >> (color * 2)) & 3;
    assert(i < 4) by { lemma_u8_fields(palette >> (color * 2)); }
    LCD::get_dmg_pixel(i)
}

impl PPU {
    /// Byte `off` (0..0x2000) of the current VRAM bank.
    pub open spec fn vbyte(self, off: int) -> u8 {
        self.vram@[self.vram_bank * 0x2000 + off]
    }

    pub open spec fn lcdc_set(self, flag: u8) -> bool {
        self.lcd.lcdc & flag == flag
    }

    /// Offset in the bank of the tile that covers pixel (x, y) of the 32x32
    /// tile map at 0x9C00 (`high_map`) or 0x9800, by the addressing mode of LCDC.
    pub open spec fn map_tile_offset(self, x: int, y: int, high_map: bool) -> int {
        let id = self.vbyte((if high_map { 0x1c00int } else { 0x1800int }) + (y / 8) * 32 + x / 8);
        if self.lcdc_set(WINDOW_BG_ADDRESSING_MODE) { id * 16 } else { ((id + 128) % 256) * 16 + 0x800 }
    }

    /// Pixel (x, y) of a tile map (chosen by LCDC bit `map_flag`): whether its
    /// colour is not 0, and its shade through BGP.
    pub open spec fn map_pixel(self, x: int, y: int, map_flag: u8) -> (bool, u8) {
        let off = self.map_tile_offset(x, y, self.lcdc_set(map_flag));
        let c = tile_color(self.vbyte(off + (y % 8) * 2), self.vbyte(off + (y % 8) * 2 + 1), 7 - x % 8);
        (1 <= c <= 3, shade(self.lcd.dmg_bg_palette, c))
    }

    /// The background pixel at screen (x, y), when the background is on.
    pub open spec fn bg_pixel(self, x: int, y: int) -> Option<(bool, u8)> {
        if !self.lcdc_set(WINDOW_BG_ENABLE) {
            None
        } else {
            Some(self.map_pixel((x + self.lcd.scx) % 256, (y + self.lcd.scy) % 256, BG_TILE_MAP))
        }
    }

    /// Whether the window covers screen (x, y).
    pub open spec fn window_covers(self, x: int, y: int) -> bool {
        &&& self.lcdc_set(WINDOW_BG_ENABLE)
        &&& self.lcdc_set(WINDOW_ENABLE)
        &&& self.lcd.wx <= 166
        &&& self.lcd.wy <= 143
        &&& x + 7 >= self.lcd.wx
        &&& y >= self.lcd.wy
    }

    /// The window pixel at screen (x, y), from the window's own line counter.
    pub open spec fn window_pixel(self, x: int, y: int) -> Option<(bool, u8)> {
        if self.window_covers(x, y) {
            let left = if self.lcd.wx >= 7 { self.lcd.wx - 7 } else { 0 };
            Some(self.map_pixel((x - left) % 256, self.window_line as int, WINDOW_TILE_MAP))
        } else {
            None
        }
    }

    /// Pixel (x, y) (0..8, 0..8) of tile `tile_id` drawn for sprite `s`
    /// (flips applied): none when transparent, else whether it is drawn over the
    /// background and its shade through the sprite's OBP.
    pub open spec fn sprite_tile_pixel(self, s: Sprite, tile_id: u8, x: int, y: int) -> Option<(bool, u8)> {
        let tx = x % 8;
        let ty = y % 8;
        let bit = if s.flags & X_FLIP == X_FLIP { tx } else { 7 - tx };
        let row = if s.flags & Y_FLIP == Y_FLIP { 14 - ty * 2 } else { ty * 2 };
        let c = tile_color(self.vbyte(tile_id * 16 + row), self.vbyte(tile_id * 16 + row + 1), bit);
        if c == 0 {
            None
        } else {
            let palette = self.lcd.dmg_obj_palettes@[if s.flags & DMG_PALETTE == DMG_PALETTE { 1int } else { 0 }];
            Some((!(s.flags & PRIORITY == PRIORITY), shade(palette, c)))
        }
    }

    /// The tile of sprite `s` that covers its row `sy`: with 8x16 sprites the
    /// upper or lower half of the pair (swapped when flipped vertically).
    pub open spec fn sprite_tile(self, s: Sprite, sy: int) -> u8 {
        if self.lcdc_set(OBJ_SIZE) {
            let flipped = s.flags & Y_FLIP == Y_FLIP;
            if (sy < 8 && !flipped) || (sy >= 8 && flipped) { s.tile_idx & 0xfe } else { s.tile_idx | 1 }
        } else {
            s.tile_idx
        }
    }

    /// The first opaque pixel at screen (x, y) among `sprites` from index `i`
    /// on that span column x; none once a spanning sprite has its row outside
    /// the screen.
    pub open spec fn sprite_pixel_from(self, sprites: Seq<Sprite>, i: int, x: int, y: int) -> Option<(bool, u8)>
        decreases sprites.len() - i,
    {
        if i < 0 || i >= sprites.len() {
            None
        } else {
            let s = sprites[i];
            if !(s.x <= x + 8 <= s.x + 7) {
                self.sprite_pixel_from(sprites, i + 1, x, y)
            } else {
                let sx = x - (s.x - 8);
                let sy = y - (s.y - 16);
                if !(0 <= sx < RESX && 0 <= sy < RESY) {
                    None
                } else {
                    match self.sprite_tile_pixel(s, self.sprite_tile(s, sy), sx, sy) {
                        Some(p) => Some(p),
                        None => self.sprite_pixel_from(sprites, i + 1, x, y),
                    }
                }
            }
        }
    }

    /// The sprite pixel at screen (x, y) from the sprites of the current line.
    pub open spec fn sprite_pixel(self, x: int, y: int) -> Option<(bool, u8)> {
        if !self.lcdc_set(OBJ_ENABLE) {
            None
        } else {
            self.sprite_pixel_from(self.line_sprite_seq(), 0, x, y)
        }
    }

    /// Whether the pixel functions can run at line `y`: the sprites of the line
    /// are known when sprites are drawn.
    pub open spec fn pixel_ok(self) -> bool {
        self.draw_sprites && self.lcdc_set(OBJ_ENABLE) ==> self.sprites_scanned
    }

    /// The shade of screen pixel (x, y): the window over the background, and a
    /// sprite pixel over both unless it yields to a non-zero background colour.
    pub open spec fn pixel(self, x: int, y: int) -> u8 {
        let bg = if self.draw_background { self.bg_pixel(x, y) } else { None };
        let win = if self.draw_window { self.window_pixel(x, y) } else { None };
        let spr = if self.draw_sprites { self.sprite_pixel(x, y) } else { None };
        let (bg_prio, back) = match win {
            Some(p) => p,
            None => match bg {
                Some(p) => p,
                None => (false, 0xff),
            },
        };
        match spr {
            Some((has_prio, s)) => if !has_prio && bg_prio { back } else { s },
            None => back,
        }
    }

    /// Whether drawing pixel (x, y) marks the window as drawn on this line.
    pub open spec fn pixel_draws_window(self, x: int, y: int) -> bool {
        self.draw_window && self.window_covers(x, y)
    }

    fn lcdc_flag(&self, flag: u8) -> (r: bool)
        ensures
            r == self.lcdc_set(flag),
    {
        self.lcd.lcdc & flag == flag
    }

    /// The tile covering (x, y) of a tile map: its offset in the bank.
    pub fn get_tile(&self, x: usize, y: usize, area_flag: bool) -> (r: usize)
        requires
            self.wf(),
            x < 256,
            y < 256,
        ensures
            r == self.map_tile_offset(x as int, y as int, area_flag),
            r + 16 <= 0x2000,
    {
        let area: usize = if area_flag { 0x1c00 } else { 0x1800 };
        let id_offset = (y / 8) * 32 + x / 8;
        let tile_id = self.vram[self.vram_bank as usize * 0x2000 + area + id_offset] as usize;
        if self.lcdc_flag(WINDOW_BG_ADDRESSING_MODE) {
            tile_id * 16
        } else {
            ((tile_id + 128) % 256) * 16 + 0x800
        }
    }

    /// Pixel (scx, scy) of the tile map chosen by LCDC bit `tile_map_flag`.
    pub fn render_tile(&self, scx: usize, scy: usize, tile_map_flag: u8) -> (r: (bool, u8))
        requires
            self.wf(),
            scx < 256,
            scy < 256,
        ensures
            r == self.map_pixel(scx as int, scy as int, tile_map_flag),
    {
        let off = self.get_tile(scx, scy, self.lcdc_flag(tile_map_flag));
        let base = self.vram_bank as usize * 0x2000 + off;
        let tile_x = scx % 8;
        let tile_y = scy % 8;
        let color = tile_color_compute(self.vram[base + tile_y * 2], self.vram[base + tile_y * 2 + 1], (7 - tile_x) as u8);
        (1 <= color && color <= 3, shade_compute(self.lcd.dmg_bg_palette, color))
    }

    /// The background pixel at screen (x, y).
    pub fn render_bg(&self, x: usize, y: usize) -> (r: Option<(bool, u8)>)
        requires
            self.wf(),
            x < 256,
            y < 256,
        ensures
            r == self.bg_pixel(x as int, y as int),
    {
        if !self.lcdc_flag(WINDOW_BG_ENABLE) {
            return None;
        }
        let scx = (x + self.lcd.scx as usize) % 256;
        let scy = (y + self.lcd.scy as usize) % 256;
        Some(self.render_tile(scx, scy, BG_TILE_MAP))
    }

    /// The window pixel at screen (x, y); marks the window as drawn on this
    /// line when it covers the pixel.
    pub fn render_window(&mut self, x: usize, y: usize) -> (r: Option<(bool, u8)>)
        requires
            old(self).wf(),
            x < 256,
            y < 256,
        ensures
            final(self).wf(),
            r == old(self).window_pixel(x as int, y as int),
            *final(self) == if old(self).window_covers(x as int, y as int) {
                PPU { window_drawn: true, ..*old(self) }
            } else {
                *old(self)
            },
    {
        if !self.lcdc_flag(WINDOW_BG_ENABLE) || !self.lcdc_flag(WINDOW_ENABLE) || self.lcd.wx > 166
            || self.lcd.wy > 143
        {
            return None;
        }
        if x + 7 < self.lcd.wx as usize || y < self.lcd.wy as usize {
            return None;
        }
        let left: usize = if self.lcd.wx >= 7 { (self.lcd.wx - 7) as usize } else { 0 };
        let scx = (x - left) % 256;
        self.window_drawn = true;
        Some(self.render_tile(scx, self.window_line as usize, WINDOW_TILE_MAP))
    }

    /// Pixel (x, y) of tile `tile_id` for sprite `sprite`.
    pub fn render_sprite_from(&self, sprite: &Sprite, tile_id: u8, x: usize, y: usize) -> (r: Option<(bool, u8)>)
        requires
            self.wf(),
        ensures
            r == self.sprite_tile_pixel(*sprite, tile_id, x as int, y as int),
    {
        let base = self.vram_bank as usize * 0x2000 + tile_id as usize * 16;
        let tile_x = x % 8;
        let tile_y = y % 8;
        let x_offset = if sprite.flags & X_FLIP == X_FLIP { tile_x } else { 7 - tile_x };
        let y_offset = if sprite.flags & Y_FLIP == Y_FLIP { 14 - tile_y * 2 } else { tile_y * 2 };
        let color = tile_color_compute(self.vram[base + y_offset], self.vram[base + y_offset + 1], x_offset as u8);
        if color == 0 {
            return None;
        }
        let palette = self.lcd.dmg_obj_palettes[if sprite.flags & DMG_PALETTE == DMG_PALETTE { 1 } else { 0 }];
        Some((!(sprite.flags & PRIORITY == PRIORITY), shade_compute(palette, color)))
    }

    /// The sprite pixel at screen (x, y), from the sprites found for the line.
    pub fn render_sprite(&self, x: usize, y: usize) -> (r: Option<(bool, u8)>)
        requires
            self.wf(),
            x < RESX,
            y < 256,
        ensures
            r == self.sprite_pixel(x as int, y as int),
    {
        if !self.lcdc_flag(OBJ_ENABLE) {
            return None;
        }
        let n = self.line_sprite_count;
        let mut i: usize = 0;
        while i < n
            invariant
                self.wf(),
                x < RESX,
                y < 256,
                n == self.line_sprite_count,
                self.lcdc_set(OBJ_ENABLE),
                i <= n,
                self.sprite_pixel_from(self.line_sprite_seq(), 0, x as int, y as int)
                    == self.sprite_pixel_from(self.line_sprite_seq(), i as int, x as int, y as int),
            decreases n - i,
        {
            let sprite = self.line_sprites[i];
            assert(sprite == self.line_sprite_seq()[i as int]);
            if sprite.x as usize <= x + 8 && x + 8 <= sprite.x as usize + 7 {
                let sprite_x = x + 8 - sprite.x as usize;
                if y + 16 < sprite.y as usize || y + 16 - (sprite.y as usize) >= RESY {
                    return None;
                }
                let sprite_y = y + 16 - sprite.y as usize;
                let tall = self.lcdc_flag(OBJ_SIZE);
                let tile = if tall {
                    let flipped = sprite.flags & Y_FLIP == Y_FLIP;
                    if (sprite_y < 8 && !flipped) || (sprite_y >= 8 && flipped) {
                        sprite.tile_idx & 0xfe
                    } else {
                        sprite.tile_idx | 1
                    }
                } else {
                    sprite.tile_idx
                };
                assert(tile == self.sprite_tile(sprite, sprite_y as int));
                let p = self.render_sprite_from(&sprite, tile, sprite_x, sprite_y);
                if p.is_some() {
                    return p;
                }
            }
            i = i + 1;
        }
        None
    }

    /// The shade of the pixel at (line_x, LY) from the enabled layers; marks
    /// the window as drawn when it covers the pixel.
    pub fn get_pixel(&mut self) -> (r: u8)
        requires
            old(self).wf(),
            old(self).line_x < RESX,
            old(self).pixel_ok(),
        ensures
            final(self).wf(),
            r == old(self).pixel(old(self).line_x as int, old(self).lcd.ly as int),
            *final(self) == if old(self).pixel_draws_window(old(self).line_x as int, old(self).lcd.ly as int) {
                PPU { window_drawn: true, ..*old(self) }
            } else {
                *old(self)
            },
    {
        let x = self.line_x as usize;
        let y = self.lcd.ly as usize;
        let bg_pixel = if self.draw_background { self.render_bg(x, y) } else { None };
        let s_pixel = if self.draw_sprites { self.render_sprite(x, y) } else { None };
        let win_pixel = if self.draw_window { self.render_window(x, y) } else { None };
        let (bg_prio, background_pixel) = match win_pixel {
            Some(p) => p,
            None => match bg_pixel {
                Some(p) => p,
                None => (false, 0xff),
            },
        };
        match s_pixel {
            Some((has_prio, s)) => if !has_prio && bg_prio { background_pixel } else { s },
            None => background_pixel,
        }
    }
}


/// Bit `i` of byte `b` (bit 0 the lowest).
pub open spec fn bit_of(b: u8, i: nat) -> int {
    (b as int / pow2(i) as int) % 2
}

/// Shifting right and masking picks out single bits and bit pairs.
proof fn lemma_shift_fields(b: u8)
    by (bit_vector)
    ensures
        (b >> 0u8) & 1 == b % 2, (b >> 1u8) & 1 == (b / 2) % 2,
        (b >> 2u8) & 1 == (b / 4) % 2, (b >> 3u8) & 1 == (b / 8) % 2,
        (b >> 4u8) & 1 == (b / 16) % 2, (b >> 5u8) & 1 == (b / 32) % 2,
        (b >> 6u8) & 1 == (b / 64) % 2, (b >> 7u8) & 1 == (b / 128) % 2,
        (b >> 0u8) & 3 == b % 4, (b >> 2u8) & 3 == (b / 4) % 4,
        (b >> 4u8) & 3 == (b / 16) % 4, (b >> 6u8) & 3 == (b / 64) % 4,
{
}

/// The colour number of bit `bit` of a tile row: the first byte of the row
/// gives its bit 0, the second byte its bit 1.
proof fn lemma_tile_color_bits(lo: u8, hi: u8, bit: int)
    requires
        0 <= bit < 8,
    ensures
        tile_color(lo, hi, bit) == 2 * bit_of(hi, bit as nat) + bit_of(lo, bit as nat),
{
    lemma2_to64();
    lemma_shift_fields(lo);
    lemma_shift_fields(hi);
    if bit == 0 {
        assert((bit as u8) == 0u8);
    } else if bit == 1 {
        assert((bit as u8) == 1u8);
    } else if bit == 2 {
        assert((bit as u8) == 2u8);
    } else if bit == 3 {
        assert((bit as u8) == 3u8);
    } else if bit == 4 {
        assert((bit as u8) == 4u8);
    } else if bit == 5 {
        assert((bit as u8) == 5u8);
    } else if bit == 6 {
        assert((bit as u8) == 6u8);
    } else {
        assert((bit as u8) == 7u8);
    }
}

/// The shade of colour number `c` is entry `c` (bits 2c and 2c + 1) of the
/// palette, looked up in the four DMG shades.
proof fn lemma_shade_entry(palette: u8, c: int)
    requires
        0 <= c < 4,
    ensures
        shade(palette, c as u8) == dmg_colors()[(palette as int / pow2((2 * c) as nat) as int) % 4],
{
    lemma2_to64();
    lemma_shift_fields(palette);
    let p = palette;
    let k = (2 * c) as nat;
    if c == 0 {
        assert(shade(p, 0u8) == dmg_colors()[((p >> 0u8) & 3) as int]);
        assert(pow2(k) == 1);
    } else if c == 1 {
        assert(shade(p, 1u8) == dmg_colors()[((p >> 2u8) & 3) as int]);
        assert(pow2(k) == 4);
    } else if c == 2 {
        assert(shade(p, 2u8) == dmg_colors()[((p >> 4u8) & 3) as int]);
        assert(pow2(k) == 16);
    } else {
        assert(shade(p, 3u8) == dmg_colors()[((p >> 6u8) & 3) as int]);
        assert(pow2(k) == 64);
    }
}

/// Tile map pixels: pixel (x, y) of a tile map takes bit 7 - x % 8 (the
/// leftmost pixel is bit 7) of the two bytes of row y % 8 of its tile; the
/// first byte gives bit 0 of the colour number and the second byte bit 1. The
/// pixel counts as drawn when that colour is not 0, and its shade is entry
/// `colour` of BGP.
pub proof fn lemma_map_pixel_color(ppu: PPU, x: int, y: int, map_flag: u8)
    requires
        0 <= x,
        0 <= y,
    ensures
        ({
            let off = ppu.map_tile_offset(x, y, ppu.lcdc_set(map_flag));
            let lo = ppu.vbyte(off + 2 * (y % 8));
            let hi = ppu.vbyte(off + 2 * (y % 8) + 1);
            let c = 2 * bit_of(hi, (7 - x % 8) as nat) + bit_of(lo, (7 - x % 8) as nat);
            &&& ppu.map_pixel(x, y, map_flag).0 == (c != 0)
            &&& ppu.map_pixel(x, y, map_flag).1
                == dmg_colors()[(ppu.lcd.dmg_bg_palette as int / pow2((2 * c) as nat) as int) % 4]
        }),
{
    let off = ppu.map_tile_offset(x, y, ppu.lcdc_set(map_flag));
    let lo = ppu.vbyte(off + (y % 8) * 2);
    let hi = ppu.vbyte(off + (y % 8) * 2 + 1);
    lemma_tile_color_bits(lo, hi, 7 - x % 8);
    let c = tile_color(lo, hi, 7 - x % 8);
    assert(0 <= c < 4) by { lemma2_to64(); lemma_shift_fields(lo); lemma_shift_fields(hi); }
    lemma_shade_entry(ppu.lcd.dmg_bg_palette, c as int);
}


/// Sprite pixels: pixel (x, y) of tile `tile_id` drawn for sprite `s` takes,
/// from the two bytes of its row (row y % 8, or 7 - y % 8 when flipped
/// vertically), bit 7 - x % 8 (bit x % 8 when flipped horizontally); the
/// first byte gives bit 0 of the colour number and the second byte bit 1.
/// Colour 0 is transparent; another colour is drawn with the shade that is
/// its entry of the sprite's OBP, over the background unless the priority
/// bit is set.
pub proof fn lemma_sprite_pixel_color(ppu: PPU, s: Sprite, tile_id: u8, x: int, y: int)
    requires
        0 <= x,
        0 <= y,
    ensures
        ({
            let ty = if s.flags & Y_FLIP == Y_FLIP { 7 - y % 8 } else { y % 8 };
            let bit = (if s.flags & X_FLIP == X_FLIP { x % 8 } else { 7 - x % 8 }) as nat;
            let lo = ppu.vbyte(tile_id * 16 + 2 * ty);
            let hi = ppu.vbyte(tile_id * 16 + 2 * ty + 1);
            let c = 2 * bit_of(hi, bit) + bit_of(lo, bit);
            let obp = ppu.lcd.dmg_obj_palettes@[if s.flags & DMG_PALETTE == DMG_PALETTE { 1int } else { 0 }];
            &&& (ppu.sprite_tile_pixel(s, tile_id, x, y) is None) == (c == 0)
            &&& c != 0 ==> ppu.sprite_tile_pixel(s, tile_id, x, y) == Some((
                !(s.flags & PRIORITY == PRIORITY),
                dmg_colors()[(obp as int / pow2((2 * c) as nat) as int) % 4],
            ))
        }),
{
    let tx = x % 8;
    let ty = y % 8;
    let bit = if s.flags & X_FLIP == X_FLIP { tx } else { 7 - tx };
    let row = if s.flags & Y_FLIP == Y_FLIP { 14 - ty * 2 } else { ty * 2 };
    let lo = ppu.vbyte(tile_id * 16 + row);
    let hi = ppu.vbyte(tile_id * 16 + row + 1);
    lemma_tile_color_bits(lo, hi, bit);
    let c = tile_color(lo, hi, bit);
    assert(0 <= c < 4) by { lemma2_to64(); lemma_shift_fields(lo); lemma_shift_fields(hi); }
    let obp = ppu.lcd.dmg_obj_palettes@[if s.flags & DMG_PALETTE == DMG_PALETTE { 1int } else { 0 }];
    lemma_shade_entry(obp, c as int);
}

} // verus!
