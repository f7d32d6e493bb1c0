use vstd::prelude::*;
use crate::bits::{lemma_or_laws, lemma_stat_bits};
use crate::cpu::interrupts::{request_interrupt, Interrupts, STAT, VBLANK};
use crate::io::video::lcd::{
    PPUMode, LCD_PPU_ENABLE, MODE_HBLANK_STAT, MODE_OAM_STAT, MODE_VBLANK_STAT, OBJ_ENABLE, OBJ_SIZE,
};
use crate::io::video::ppu::{Sprite, LINES_PER_FRAME, PPU, RESX, RESY, TICKS_PER_LINE};
use crate::io::video::scan::scan_line;

verus! {

/// `a` with entries `i..` replaced by those of `s` (as far as `s` goes).
pub open spec fn fill_sprites(a: [Sprite; 10], s: Seq<Sprite>, i: int) -> [Sprite; 10]
    decreases 10 - i,
{
    if i < 0 || i >= 10 || i >= s.len() {
        a
    } else {
        fill_sprites(vstd::array::spec_array_update(a, i, s[i]), s, i + 1)
    }
}

/// The interrupt bits `cond` asks for: `bits` when it holds, none otherwise.
pub open spec fn bits_if(cond: bool, bits: u8) -> u8 {
    if cond { bits } else { 0 }
}

impl PPU {
    pub open spec fn stat_set(self, flag: u8) -> bool {
        self.lcd.lcds & flag == flag
    }

    /// The PPU after the OAM scan part of a dot: after 80 dots the line moves
    /// to drawing; before, the line's sprites are found once.
    pub open spec fn after_oam_scan(self) -> PPU {
        if self.line_ticks >= 80 {
            PPU { lcd: self.lcd.with_mode(PPUMode::Draw), ..self }
        } else if self.sprites_scanned {
            self
        } else {
            let s = scan_line(self.oam@, self.lcd.ly, self.lcdc_set(OBJ_SIZE));
            PPU {
                line_sprites: fill_sprites(self.line_sprites, s, 0),
                line_sprite_count: s.len() as usize,
                sprites_scanned: true,
                ..self
            }
        }
    }

    /// The PPU after the drawing part of a dot: one pixel of the line drawn,
    /// or, past the last one, HBlank.
    pub open spec fn after_draw(self) -> PPU {
        if self.line_x >= RESX {
            PPU { lcd: self.lcd.with_mode(PPUMode::HBlank), ..self }
        } else {
            let x = self.line_x as int;
            let y = self.lcd.ly as int;
            PPU {
                vbuf: vstd::array::spec_array_update(self.vbuf, y * 160 + x, self.pixel(x, y)),
                line_x: (self.line_x + 1) as u8,
                window_drawn: self.window_drawn || self.pixel_draws_window(x, y),
                ..self
            }
        }
    }

    /// The interrupts the drawing part of a dot requests.
    pub open spec fn draw_requests(self) -> u8 {
        bits_if(self.line_x >= RESX && self.stat_set(MODE_HBLANK_STAT), STAT)
    }

    /// The PPU after the HBlank part of a dot: at the end of the line, the
    /// next line starts (OAM scan), or VBlank after the last visible one.
    pub open spec fn after_hblank(self) -> PPU {
        if self.line_ticks < TICKS_PER_LINE {
            self
        } else {
            let lcd = self.lcd.after_inc_ly();
            PPU {
                lcd: lcd.with_mode(if lcd.ly >= RESY { PPUMode::VBlank } else { PPUMode::OAMScan }),
                line_ticks: 0,
                sprites_scanned: false,
                line_x: 0,
                window_line: if self.window_drawn { (self.window_line + 1) as u8 } else { self.window_line },
                window_drawn: false,
                ..self
            }
        }
    }

    /// The interrupts the HBlank part of a dot requests.
    pub open spec fn hblank_requests(self) -> u8 {
        if self.line_ticks < TICKS_PER_LINE {
            0
        } else {
            let lcd = self.lcd.after_inc_ly();
            let vblank = lcd.ly >= RESY;
            bits_if(self.lcd.inc_ly_requests_stat(), STAT)
                | bits_if(vblank, VBLANK)
                | bits_if(vblank && lcd.lcds & MODE_VBLANK_STAT == MODE_VBLANK_STAT, STAT)
                | bits_if(!vblank && lcd.lcds & MODE_OAM_STAT == MODE_OAM_STAT, STAT)
        }
    }

    /// Whether the VBlank part of a dot finishes the frame.
    pub open spec fn vblank_ends_frame(self) -> bool {
        self.line_ticks >= TICKS_PER_LINE && self.lcd.after_inc_ly().ly >= LINES_PER_FRAME
    }

    /// The PPU after the VBlank part of a dot: at the end of a line LY
    /// advances; after the last line the frame is counted and LY restarts at
    /// 0 in OAM scan.
    pub open spec fn after_vblank(self) -> PPU {
        if self.line_ticks < TICKS_PER_LINE {
            self
        } else {
            let lcd = self.lcd.after_inc_ly();
            let done = lcd.ly >= LINES_PER_FRAME;
            PPU {
                lcd: if done { lcd_restarted(lcd) } else { lcd },
                frames: if done { (self.frames + 1) as u64 } else { self.frames },
                line_ticks: 0,
                sprites_scanned: false,
                line_x: 0,
                window_line: 0,
                window_drawn: false,
                ..self
            }
        }
    }

    /// The interrupts the VBlank part of a dot requests.
    pub open spec fn vblank_requests(self) -> u8 {
        if self.line_ticks < TICKS_PER_LINE {
            0
        } else {
            let lcd = self.lcd.after_inc_ly();
            bits_if(self.lcd.inc_ly_requests_stat(), STAT)
                | bits_if(lcd.ly >= LINES_PER_FRAME && lcd.lcds & MODE_OAM_STAT == MODE_OAM_STAT, STAT)
        }
    }

    /// The PPU with the dot counter advanced.
    pub open spec fn with_dot(self) -> PPU {
        PPU { line_ticks: (self.line_ticks + 1) as u16, ..self }
    }

    /// Whether one dot can run: the counters stay in range, drawn pixels fall
    /// inside the frame with the line's sprites known, and the line scan
    /// stays within LY + 16 <= 255.
    pub open spec fn dot_ok(self) -> bool {
        let d = self.with_dot();
        &&& self.line_ticks < 0xffff
        &&& match d.lcd.mode_spec() {
            PPUMode::OAMScan => d.line_ticks < 80 && !d.sprites_scanned ==> d.lcd.ly <= 239,
            PPUMode::Draw => d.line_x < RESX ==> d.lcd.ly < RESY && d.pixel_ok(),
            PPUMode::HBlank => d.line_ticks >= TICKS_PER_LINE ==> d.lcd.ly < 255
                && (d.window_drawn ==> d.window_line < 255),
            PPUMode::VBlank => d.line_ticks >= TICKS_PER_LINE ==> d.lcd.ly < 255 && d.frames < u64::MAX,
        }
    }

    /// The PPU after one dot.
    pub open spec fn after_dot(self) -> PPU {
        let d = self.with_dot();
        match d.lcd.mode_spec() {
            PPUMode::OAMScan => d.after_oam_scan(),
            PPUMode::Draw => d.after_draw(),
            PPUMode::HBlank => d.after_hblank(),
            PPUMode::VBlank => d.after_vblank(),
        }
    }

    /// The interrupts one dot requests.
    pub open spec fn dot_requests(self) -> u8 {
        let d = self.with_dot();
        match d.lcd.mode_spec() {
            PPUMode::OAMScan => 0,
            PPUMode::Draw => d.draw_requests(),
            PPUMode::HBlank => d.hblank_requests(),
            PPUMode::VBlank => d.vblank_requests(),
        }
    }

    /// Whether one dot finishes a frame.
    pub open spec fn dot_ends_frame(self) -> bool {
        let d = self.with_dot();
        d.lcd.mode_spec() == PPUMode::VBlank && d.vblank_ends_frame()
    }

    /// Whether `n` dots can run one after the other.
    pub open spec fn dots_ok(self, n: nat) -> bool
        decreases n,
    {
        n == 0 || (self.dot_ok() && self.after_dot().dots_ok((n - 1) as nat))
    }

    /// The PPU after `n` dots.
    pub open spec fn after_dots(self, n: nat) -> PPU
        decreases n,
    {
        if n == 0 { self } else { self.after_dot().after_dots((n - 1) as nat) }
    }

    /// The interrupts `n` dots request.
    pub open spec fn dots_requests(self, n: nat) -> u8
        decreases n,
    {
        if n == 0 { 0 } else { self.dot_requests() | self.after_dot().dots_requests((n - 1) as nat) }
    }

    /// Whether one of `n` dots finishes a frame.
    pub open spec fn dots_end_frame(self, n: nat) -> bool
        decreases n,
    {
        n > 0 && (self.dot_ends_frame() || self.after_dot().dots_end_frame((n - 1) as nat))
    }

    /// Whether a `tick` can run: nothing to do with the LCD off, else four dots.
    #[verifier::opaque]
    pub open spec fn tick_ok(self) -> bool {
        self.lcdc_set(LCD_PPU_ENABLE) ==> self.dots_ok(4)
    }

    /// The PPU after a `tick`.
    #[verifier::opaque]
    pub open spec fn after_ppu_tick(self) -> PPU {
        if self.lcdc_set(LCD_PPU_ENABLE) { self.after_dots(4) } else { self }
    }

    /// The interrupts a `tick` requests.
    #[verifier::opaque]
    pub open spec fn tick_requests(self) -> u8 {
        if self.lcdc_set(LCD_PPU_ENABLE) { self.dots_requests(4) } else { 0 }
    }

    /// Whether a `tick` finishes a frame.
    #[verifier::opaque]
    pub open spec fn tick_ends_frame(self) -> bool {
        self.lcdc_set(LCD_PPU_ENABLE) && self.dots_end_frame(4)
    }
}

/// `lcd` with LY back at 0 in OAM scan mode.
pub open spec fn lcd_restarted(lcd: crate::io::video::lcd::LCD) -> crate::io::video::lcd::LCD {
    crate::io::video::lcd::LCD { ly: 0, ..lcd }.with_mode(PPUMode::OAMScan)
}

impl PPU {
    /// OAM scan: after 80 dots switch to drawing; before, find the line's
    /// sprites once.
    fn oam_scan(&mut self)
        requires
            old(self).wf(),
            old(self).line_ticks < 80 && !old(self).sprites_scanned ==> old(self).lcd.ly <= 239,
        ensures
            final(self).wf(),
            *final(self) == old(self).after_oam_scan(),
    {
        if self.line_ticks >= 80 {
            self.lcd.set_ppu_mode(PPUMode::Draw);
            return;
        }
        if self.sprites_scanned {
            return;
        }
        let tall = self.lcd.lcdc & OBJ_SIZE == OBJ_SIZE;
        let found = self.scan_sprites(tall);
        let n = found.len();
        let ghost a0 = self.line_sprites;
        let ghost before = *self;
        let mut i: usize = 0;
        while i < n
            invariant
                *self == (PPU { line_sprites: self.line_sprites, ..before }),
                n == found@.len(),
                n <= 10,
                i <= n,
                fill_sprites(self.line_sprites, found@, i as int) == fill_sprites(a0, found@, 0),
            decreases n - i,
        {
            let ghost prev = self.line_sprites;
            self.line_sprites[i] = found[i];
            assert(self.line_sprites@ =~= vstd::array::spec_array_update(prev, i as int, found@[i as int])@);
            i = i + 1;
        }
        self.line_sprite_count = n;
        self.sprites_scanned = true;
    }

    /// Drawing: one pixel of the line into the frame, or, past the last,
    /// HBlank (with the STAT interrupt if it is enabled for HBlank).
    fn draw(&mut self, ints: &mut Interrupts)
        requires
            old(self).wf(),
            old(self).line_x < RESX ==> old(self).lcd.ly < RESY && old(self).pixel_ok(),
        ensures
            final(self).wf(),
            *final(self) == old(self).after_draw(),
            final(ints).flags == old(ints).flags | old(self).draw_requests(),
            final(ints).enable == old(ints).enable,
    {
        if self.line_x as usize >= RESX {
            let l = self.lcd.lcds;
            assert(((l & 0xfc) | 0) & 8 == l & 8) by { lemma_stat_bits(l, 0); }
            self.lcd.set_ppu_mode(PPUMode::HBlank);
            if self.lcd.lcds & MODE_HBLANK_STAT == MODE_HBLANK_STAT {
                request_interrupt(ints, STAT);
            } else {
                let f = ints.flags;
                assert(f | 0 == f) by { lemma_or_laws(f, 0, 0, 0, 0); }
            }
            return;
        }
        let idx = self.lcd.ly as usize * RESX + self.line_x as usize;
        let p = self.get_pixel();
        self.vbuf[idx] = p;
        self.line_x = self.line_x + 1;
        let f = ints.flags;
        assert(f | 0 == f) by { lemma_or_laws(f, 0, 0, 0, 0); }
    }

    /// HBlank: at the end of the line LY advances and the next line starts in
    /// OAM scan, or VBlank begins after the last visible line (VBlank
    /// interrupt, and STAT when enabled for the mode entered).
    fn hblank(&mut self, ints: &mut Interrupts)
        requires
            old(self).wf(),
            old(self).line_ticks >= TICKS_PER_LINE ==> old(self).lcd.ly < 255
                && (old(self).window_drawn ==> old(self).window_line < 255),
        ensures
            final(self).wf(),
            *final(self) == old(self).after_hblank(),
            final(ints).flags == old(ints).flags | old(self).hblank_requests(),
            final(ints).enable == old(ints).enable,
    {
        let f0 = ints.flags;
        if self.line_ticks >= TICKS_PER_LINE {
            let ghost lyc_bits = bits_if(self.lcd.inc_ly_requests_stat(), STAT);
            assert(f0 | 0 == f0) by { lemma_or_laws(f0, 0, 0, 0, 0); }
            self.lcd.inc_ly(ints);
            assert(ints.flags == f0 | lyc_bits);
            self.line_ticks = 0;
            self.sprites_scanned = false;
            self.line_x = 0;
            if self.window_drawn {
                self.window_line = self.window_line + 1;
            }
            self.window_drawn = false;
            let l = self.lcd.lcds;
            if self.lcd.ly as usize >= RESY {
                assert(((l & 0xfc) | 1) & 0x10 == l & 0x10) by { lemma_stat_bits(l, 1); }
                self.lcd.set_ppu_mode(PPUMode::VBlank);
                request_interrupt(ints, VBLANK);
                if self.lcd.lcds & MODE_VBLANK_STAT == MODE_VBLANK_STAT {
                    request_interrupt(ints, STAT);
                    assert(((f0 | lyc_bits) | 1) | 2 == f0 | (((lyc_bits | 1) | 2) | 0)) by { lemma_or_laws(f0, lyc_bits, 0, 0, 0); }
                } else {
                    assert((f0 | lyc_bits) | 1 == f0 | (((lyc_bits | 1) | 0) | 0)) by { lemma_or_laws(f0, lyc_bits, 0, 0, 0); }
                }
            } else {
                assert(((l & 0xfc) | 2) & 0x20 == l & 0x20) by { lemma_stat_bits(l, 2); }
                self.lcd.set_ppu_mode(PPUMode::OAMScan);
                if self.lcd.lcds & MODE_OAM_STAT == MODE_OAM_STAT {
                    request_interrupt(ints, STAT);
                    assert((f0 | lyc_bits) | 2 == f0 | (((lyc_bits | 0) | 0) | 2)) by { lemma_or_laws(f0, lyc_bits, 0, 0, 0); }
                } else {
                    assert(f0 | lyc_bits == f0 | (((lyc_bits | 0) | 0) | 0)) by { lemma_or_laws(f0, lyc_bits, 0, 0, 0); }
                }
            }
        } else {
            assert(f0 | 0 == f0) by { lemma_or_laws(f0, 0, 0, 0, 0); }
        }
    }

    /// VBlank: at the end of a line LY advances; after the last line the
    /// frame is done: LY back to 0 in OAM scan (STAT when enabled for OAM
    /// scan). The result tells whether the frame is done.
    fn vblank(&mut self, ints: &mut Interrupts) -> (frame_done: bool)
        requires
            old(self).wf(),
            old(self).line_ticks >= TICKS_PER_LINE ==> old(self).lcd.ly < 255 && old(self).frames < u64::MAX,
        ensures
            final(self).wf(),
            *final(self) == old(self).after_vblank(),
            final(ints).flags == old(ints).flags | old(self).vblank_requests(),
            final(ints).enable == old(ints).enable,
            frame_done == old(self).vblank_ends_frame(),
    {
        let f0 = ints.flags;
        let mut frame_done = false;
        if self.line_ticks >= TICKS_PER_LINE {
            let ghost lyc_bits = bits_if(self.lcd.inc_ly_requests_stat(), STAT);
            assert(f0 | 0 == f0) by { lemma_or_laws(f0, 0, 0, 0, 0); }
            self.lcd.inc_ly(ints);
            assert(ints.flags == f0 | lyc_bits);
            if self.lcd.ly >= LINES_PER_FRAME {
                self.lcd.ly = 0;
                let l = self.lcd.lcds;
                assert(((l & 0xfc) | 2) & 0x20 == l & 0x20) by { lemma_stat_bits(l, 2); }
                self.lcd.set_ppu_mode(PPUMode::OAMScan);
                self.frames = self.frames + 1;
                if self.lcd.lcds & MODE_OAM_STAT == MODE_OAM_STAT {
                    request_interrupt(ints, STAT);
                    assert((f0 | lyc_bits) | 2 == f0 | (lyc_bits | 2)) by { lemma_or_laws(f0, lyc_bits, 0, 0, 0); }
                } else {
                    assert(f0 | lyc_bits == f0 | (lyc_bits | 0)) by { lemma_or_laws(f0, lyc_bits, 0, 0, 0); }
                }
                frame_done = true;
            } else {
                assert(f0 | lyc_bits == f0 | (lyc_bits | 0)) by { lemma_or_laws(f0, lyc_bits, 0, 0, 0); }
            }
            self.line_ticks = 0;
            self.sprites_scanned = false;
            self.line_x = 0;
            self.window_line = 0;
            self.window_drawn = false;
        } else {
            assert(f0 | 0 == f0) by { lemma_or_laws(f0, 0, 0, 0, 0); }
        }
        frame_done
    }

    /// One dot: the dot counter advances and the current mode does its part.
    fn dot(&mut self, ints: &mut Interrupts) -> (frame_done: bool)
        requires
            old(self).wf(),
            old(self).dot_ok(),
        ensures
            final(self).wf(),
            *final(self) == old(self).after_dot(),
            final(ints).flags == old(ints).flags | old(self).dot_requests(),
            final(ints).enable == old(ints).enable,
            frame_done == old(self).dot_ends_frame(),
    {
        self.line_ticks = self.line_ticks + 1;
        match self.lcd.get_ppu_mode() {
            PPUMode::HBlank => {
                self.hblank(ints);
                false
            },
            PPUMode::VBlank => self.vblank(ints),
            PPUMode::OAMScan => {
                self.oam_scan();
                let f = ints.flags;
                assert(f | 0 == f) by { lemma_or_laws(f, 0, 0, 0, 0); }
                false
            },
            PPUMode::Draw => {
                self.draw(ints);
                false
            },
        }
    }

    /// Four dots (one M-cycle) while the LCD is on. The result tells whether
    /// a frame was finished; the frame is then in `vbuf`.
    pub fn tick(&mut self, ints: &mut Interrupts) -> (frame_done: bool)
        requires
            old(self).wf(),
            old(self).tick_ok(),
        ensures
            final(self).wf(),
            *final(self) == old(self).after_ppu_tick(),
            final(ints).flags == old(ints).flags | old(self).tick_requests(),
            final(ints).enable == old(ints).enable,
            frame_done == old(self).tick_ends_frame(),
    {
        proof {
            reveal(PPU::tick_ok);
            reveal(PPU::after_ppu_tick);
            reveal(PPU::tick_requests);
            reveal(PPU::tick_ends_frame);
        }
        let f0 = ints.flags;
        if self.lcd.lcdc & LCD_PPU_ENABLE != LCD_PPU_ENABLE {
            assert(f0 | 0 == f0) by { lemma_or_laws(f0, 0, 0, 0, 0); }
            return false;
        }
        proof {
            reveal_with_fuel(PPU::dots_ok, 5);
            reveal_with_fuel(PPU::after_dots, 5);
            reveal_with_fuel(PPU::dots_requests, 5);
            reveal_with_fuel(PPU::dots_end_frame, 5);
        }
        let ghost p0 = *self;
        let d1 = self.dot(ints);
        let ghost r1 = p0.dot_requests();
        let ghost p1 = *self;
        let d2 = self.dot(ints);
        let ghost r2 = p1.dot_requests();
        let ghost p2 = *self;
        let d3 = self.dot(ints);
        let ghost r3 = p2.dot_requests();
        let ghost p3 = *self;
        let d4 = self.dot(ints);
        let ghost r4 = p3.dot_requests();
        assert((((f0 | r1) | r2) | r3) | r4 == f0 | (r1 | (r2 | (r3 | (r4 | 0))))) by { lemma_or_laws(f0, r1, r2, r3, r4); }
        d1 || d2 || d3 || d4
    }

    /// Whether one dot can run (see `dot_ok`).
    fn dot_check(&self) -> (r: bool)
        ensures
            r == self.dot_ok(),
    {
        if self.line_ticks == 0xffff {
            return false;
        }
        let t = self.line_ticks + 1;
        match self.lcd.get_ppu_mode() {
            PPUMode::OAMScan => !(t < 80 && !self.sprites_scanned) || self.lcd.ly <= 239,
            PPUMode::Draw => !((self.line_x as usize) < RESX) || ((self.lcd.ly as usize) < RESY
                && (!(self.draw_sprites && self.lcd.lcdc & OBJ_ENABLE == OBJ_ENABLE) || self.sprites_scanned)),
            PPUMode::HBlank => t < TICKS_PER_LINE || (self.lcd.ly < 255
                && (!self.window_drawn || self.window_line < 255)),
            PPUMode::VBlank => t < TICKS_PER_LINE || (self.lcd.ly < 255 && self.frames < u64::MAX),
        }
    }

    /// `tick` with each dot checked before it runs: `None` (the PPU possibly
    /// part-way through the four dots) when one cannot run.
    pub fn try_tick(&mut self, ints: &mut Interrupts) -> (r: Option<bool>)
        requires
            old(self).wf(),
        ensures
            final(self).wf(),
            final(ints).enable == old(ints).enable,
            r is Some ==> old(self).tick_ok() && *final(self) == old(self).after_ppu_tick()
                && final(ints).flags == old(ints).flags | old(self).tick_requests()
                && r == Some(old(self).tick_ends_frame()),
            r is None ==> !old(self).tick_ok(),
    {
        proof {
            reveal(PPU::tick_ok);
            reveal(PPU::after_ppu_tick);
            reveal(PPU::tick_requests);
            reveal(PPU::tick_ends_frame);
            reveal_with_fuel(PPU::dots_ok, 5);
            reveal_with_fuel(PPU::after_dots, 5);
            reveal_with_fuel(PPU::dots_requests, 5);
            reveal_with_fuel(PPU::dots_end_frame, 5);
        }
        let f0 = ints.flags;
        if self.lcd.lcdc & LCD_PPU_ENABLE != LCD_PPU_ENABLE {
            assert(f0 | 0 == f0) by { lemma_or_laws(f0, 0, 0, 0, 0); }
            return Some(false);
        }
        let ghost p0 = *self;
        if !self.dot_check() {
            return None;
        }
        let d1 = self.dot(ints);
        let ghost r1 = p0.dot_requests();
        let ghost p1 = *self;
        if !self.dot_check() {
            return None;
        }
        let d2 = self.dot(ints);
        let ghost r2 = p1.dot_requests();
        let ghost p2 = *self;
        if !self.dot_check() {
            return None;
        }
        let d3 = self.dot(ints);
        let ghost r3 = p2.dot_requests();
        let ghost p3 = *self;
        if !self.dot_check() {
            return None;
        }
        let d4 = self.dot(ints);
        let ghost r4 = p3.dot_requests();
        assert((((f0 | r1) | r2) | r3) | r4 == f0 | (r1 | (r2 | (r3 | (r4 | 0))))) by { lemma_or_laws(f0, r1, r2, r3, r4); }
        Some(d1 || d2 || d3 || d4)
    }
}

} // verus!
