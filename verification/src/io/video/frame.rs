use vstd::prelude::*;
use crate::bits::lemma_stat_bits;
use crate::io::video::lcd::{mode_number, PPUMode, LCD};
use crate::io::video::ppu::PPU;

verus! {

// The frame timing of the PPU: 80 dots of OAM scan, 161 of drawing and 215 of
// HBlank make a 456-dot line; 144 visible lines and 10 of VBlank make a frame.

/// Setting the mode sets what `mode_spec` reads; advancing LY keeps the mode.
proof fn lemma_mode_bits(lcd: LCD, m: PPUMode)
    ensures
        lcd.with_mode(m).mode_spec() == m,
        lcd.with_mode(m).ly == lcd.ly,
        lcd.after_inc_ly().mode_spec() == lcd.mode_spec(),
        lcd.after_inc_ly().ly == (lcd.ly + 1) as u8,
{
    lemma_stat_bits(lcd.lcds, mode_number(m));
    lemma_stat_bits(lcd.lcds, 0);
}

/// `a + b` dots are `a` dots, then `b`.
proof fn lemma_dots_add(p: PPU, a: nat, b: nat)
    ensures
        p.after_dots(a + b) == p.after_dots(a).after_dots(b),
    decreases a,
{
    if a > 0 {
        lemma_dots_add(p.after_dot(), (a - 1) as nat, b);
        assert((a + b - 1) as nat == (a - 1) as nat + b);
    }
}

/// The OAM scan ends at dot 80 of the line, in drawing mode.
proof fn lemma_oam_phase(p: PPU, n: nat)
    requires
        p.lcd.mode_spec() == PPUMode::OAMScan,
        n >= 1,
        p.line_ticks + n == 80,
    ensures
        p.after_dots(n).lcd.mode_spec() == PPUMode::Draw,
        p.after_dots(n).line_ticks == 80,
        p.after_dots(n).lcd.ly == p.lcd.ly,
        p.after_dots(n).line_x == p.line_x,
        p.after_dots(n).frames == p.frames,
    decreases n,
{
    lemma_mode_bits(p.lcd, PPUMode::Draw);
    let q = p.after_dot();
    assert(q.lcd.ly == p.lcd.ly && q.line_x == p.line_x && q.frames == p.frames);
    assert(q.line_ticks == p.line_ticks + 1);
    if n == 1 {
        assert(q.lcd.mode_spec() == PPUMode::Draw);
        assert(p.after_dots(1) == q.after_dots(0));
    } else {
        assert(q.lcd.mode_spec() == PPUMode::OAMScan);
        lemma_oam_phase(q, (n - 1) as nat);
    }
}

/// Drawing puts out the line's pixels one per dot, then HBlank starts.
proof fn lemma_draw_phase(p: PPU, n: nat)
    requires
        p.lcd.mode_spec() == PPUMode::Draw,
        n >= 1,
        p.line_x + n == 161,
        p.line_ticks + n < 0x10000,
    ensures
        p.after_dots(n).lcd.mode_spec() == PPUMode::HBlank,
        p.after_dots(n).line_ticks == p.line_ticks + n,
        p.after_dots(n).lcd.ly == p.lcd.ly,
        p.after_dots(n).line_x == 160,
        p.after_dots(n).frames == p.frames,
    decreases n,
{
    lemma_mode_bits(p.lcd, PPUMode::HBlank);
    let q = p.after_dot();
    assert(q.lcd.ly == p.lcd.ly && q.frames == p.frames);
    assert(q.line_ticks == p.line_ticks + 1);
    if n == 1 {
        assert(q.lcd.mode_spec() == PPUMode::HBlank && q.line_x == 160);
        assert(p.after_dots(1) == q.after_dots(0));
    } else {
        assert(q.lcd.mode_spec() == PPUMode::Draw && q.line_x == p.line_x + 1);
        lemma_draw_phase(q, (n - 1) as nat);
    }
}

/// HBlank lasts to the end of the 456-dot line; the next line then starts
/// with its OAM scan, or with VBlank after line 143.
proof fn lemma_hblank_phase(p: PPU, n: nat)
    requires
        p.lcd.mode_spec() == PPUMode::HBlank,
        n >= 1,
        p.line_ticks + n == 456,
        p.lcd.ly < 255,
    ensures
        p.after_dots(n).lcd.mode_spec() == if p.lcd.ly + 1 >= 144 { PPUMode::VBlank } else { PPUMode::OAMScan },
        p.after_dots(n).line_ticks == 0,
        p.after_dots(n).lcd.ly == p.lcd.ly + 1,
        p.after_dots(n).line_x == 0,
        p.after_dots(n).frames == p.frames,
    decreases n,
{
    let q = p.after_dot();
    let d = p.with_dot();
    lemma_mode_bits(d.lcd, PPUMode::HBlank);
    lemma_mode_bits(d.lcd.after_inc_ly(), PPUMode::VBlank);
    lemma_mode_bits(d.lcd.after_inc_ly(), PPUMode::OAMScan);
    if n == 1 {
        assert(p.after_dots(1) == q.after_dots(0));
    } else {
        assert(q == d);
        lemma_hblank_phase(q, (n - 1) as nat);
    }
}

/// A VBlank line lasts 456 dots; after line 153 the frame is counted and line
/// 0 starts with its OAM scan.
proof fn lemma_vblank_phase(p: PPU, n: nat)
    requires
        p.lcd.mode_spec() == PPUMode::VBlank,
        n >= 1,
        p.line_ticks + n == 456,
        p.lcd.ly < 255,
    ensures
        p.after_dots(n).line_ticks == 0,
        p.after_dots(n).line_x == 0,
        p.lcd.ly + 1 >= 154 ==> p.after_dots(n).lcd.ly == 0
            && p.after_dots(n).lcd.mode_spec() == PPUMode::OAMScan
            && p.after_dots(n).frames == (p.frames + 1) as u64,
        p.lcd.ly + 1 < 154 ==> p.after_dots(n).lcd.ly == p.lcd.ly + 1
            && p.after_dots(n).lcd.mode_spec() == PPUMode::VBlank
            && p.after_dots(n).frames == p.frames,
    decreases n,
{
    let q = p.after_dot();
    let d = p.with_dot();
    let l = d.lcd.after_inc_ly();
    lemma_mode_bits(d.lcd, PPUMode::VBlank);
    lemma_mode_bits(LCD { ly: 0, ..l }, PPUMode::OAMScan);
    if n == 1 {
        assert(p.after_dots(1) == q.after_dots(0));
    } else {
        assert(q == d);
        lemma_vblank_phase(q, (n - 1) as nat);
    }
}

/// A visible line takes 456 dots from the start of its OAM scan to the start
/// of the next line.
proof fn lemma_visible_line(p: PPU)
    requires
        p.lcd.mode_spec() == PPUMode::OAMScan,
        p.line_ticks == 0,
        p.line_x == 0,
        p.lcd.ly < 144,
    ensures
        p.after_dots(456).lcd.mode_spec() == if p.lcd.ly + 1 >= 144 { PPUMode::VBlank } else { PPUMode::OAMScan },
        p.after_dots(456).line_ticks == 0,
        p.after_dots(456).lcd.ly == p.lcd.ly + 1,
        p.after_dots(456).line_x == 0,
        p.after_dots(456).frames == p.frames,
{
    lemma_oam_phase(p, 80);
    let p1 = p.after_dots(80);
    lemma_draw_phase(p1, 161);
    let p2 = p1.after_dots(161);
    lemma_hblank_phase(p2, 215);
    lemma_dots_add(p, 80, 161);
    lemma_dots_add(p, 241, 215);
}

/// After `k` whole lines from the start of a frame the PPU is at the start of
/// line `k`.
proof fn lemma_lines(p: PPU, k: nat)
    requires
        p.lcd.mode_spec() == PPUMode::OAMScan,
        p.line_ticks == 0,
        p.line_x == 0,
        p.lcd.ly == 0,
        k <= 153,
    ensures
        p.after_dots(k * 456).lcd.mode_spec() == if k < 144 { PPUMode::OAMScan } else { PPUMode::VBlank },
        p.after_dots(k * 456).line_ticks == 0,
        p.after_dots(k * 456).lcd.ly == k,
        p.after_dots(k * 456).line_x == 0,
        p.after_dots(k * 456).frames == p.frames,
    decreases k,
{
    if k > 0 {
        lemma_lines(p, (k - 1) as nat);
        let q = p.after_dots(((k - 1) * 456) as nat);
        if k - 1 < 144 {
            lemma_visible_line(q);
        } else {
            lemma_vblank_phase(q, 456);
        }
        lemma_dots_add(p, ((k - 1) * 456) as nat, 456);
        assert(((k - 1) * 456) as nat + 456 == k * 456);
    }
}

/// With the LCD on, a frame takes 70224 dots (a tick runs four): from the start
/// of a frame (line 0, first dot of its OAM scan) the PPU is, 70224 dots
/// later, at the start of the next frame and has counted one more frame.
pub proof fn lemma_frame_period(p: PPU)
    requires
        p.lcd.mode_spec() == PPUMode::OAMScan,
        p.line_ticks == 0,
        p.line_x == 0,
        p.lcd.ly == 0,
    ensures
        p.after_dots(70224).lcd.mode_spec() == PPUMode::OAMScan,
        p.after_dots(70224).line_ticks == 0,
        p.after_dots(70224).lcd.ly == 0,
        p.after_dots(70224).line_x == 0,
        p.after_dots(70224).frames == (p.frames + 1) as u64,
{
    lemma_lines(p, 153);
    let q = p.after_dots(153 * 456);
    lemma_vblank_phase(q, 456);
    lemma_dots_add(p, 153 * 456, 456);
}

} // verus!
