use vstd::prelude::*;
use crate::io::video::ppu::{Sprite, PPU};

verus! {

/// The most sprites one line shows.
pub const MAX_LINE_SPRITES: usize = 10;

/// Whether sprite `s` covers line `ly`: LY + 16 lies in its rows, `s.y` up to
/// `s.y + 7` (or `+ 15` for 8x16 sprites), the upper bound wrapping at 256.
pub open spec fn on_line(s: Sprite, ly: u8, tall: bool) -> bool {
    let bottom = ((s.y + if tall { 15int } else { 7int }) % 256) as u8;
    s.y <= ly + 16 <= bottom
}

/// Among the first `n` entries of `oam`, the sprites on the line with X
/// position `k`, in OAM order.
pub open spec fn line_sprites_at(oam: Seq<Sprite>, n: int, k: int, ly: u8, tall: bool) -> Seq<Sprite>
    decreases n,
{
    if n <= 0 {
        Seq::empty()
    } else {
        let prev = line_sprites_at(oam, n - 1, k, ly, tall);
        if oam[n - 1].x == k && on_line(oam[n - 1], ly, tall) { prev.push(oam[n - 1]) } else { prev }
    }
}

/// The sprites on the line with X position `k` or more, by X position and,
/// at equal positions, in OAM order.
pub open spec fn line_sprites_from(oam: Seq<Sprite>, k: int, ly: u8, tall: bool) -> Seq<Sprite>
    decreases 256 - k,
{
    if k >= 256 {
        Seq::empty()
    } else {
        line_sprites_at(oam, oam.len() as int, k, ly, tall) + line_sprites_from(oam, k + 1, ly, tall)
    }
}

/// The sprites line `ly` shows: those on the line, ordered by X position
/// (OAM order among equal positions), at most the first ten of them.
pub open spec fn scan_line(oam: Seq<Sprite>, ly: u8, tall: bool) -> Seq<Sprite> {
    let all = line_sprites_from(oam, 0, ly, tall);
    if all.len() > 10 { all.subrange(0, 10) } else { all }
}

/// No sprite on the line among the first `n` entries sits at X position `k`.
pub open spec fn none_at(oam: Seq<Sprite>, n: int, k: int, ly: u8, tall: bool) -> bool {
    forall|j: int| 0 <= j < n && on_line(#[trigger] oam[j], ly, tall) ==> oam[j].x != k
}

proof fn lemma_none_at(oam: Seq<Sprite>, n: int, k: int, ly: u8, tall: bool)
    requires
        0 <= n <= oam.len(),
        none_at(oam, n, k, ly, tall),
    ensures
        line_sprites_at(oam, n, k, ly, tall) == Seq::<Sprite>::empty(),
    decreases n,
{
    if n > 0 {
        assert(on_line(oam[n - 1], ly, tall) ==> oam[n - 1].x != k);
        lemma_none_at(oam, n - 1, k, ly, tall);
    }
}

/// Positions `a` up to `b` (excluded) contribute nothing.
proof fn lemma_skip_keys(oam: Seq<Sprite>, a: int, b: int, ly: u8, tall: bool)
    requires
        0 <= a <= b <= 256,
        forall|k: int| a <= k < b ==> none_at(oam, oam.len() as int, k, ly, tall),
    ensures
        line_sprites_from(oam, a, ly, tall) == line_sprites_from(oam, b, ly, tall),
    decreases b - a,
{
    if a < b {
        assert(none_at(oam, oam.len() as int, a, ly, tall));
        lemma_none_at(oam, oam.len() as int, a, ly, tall);
        lemma_skip_keys(oam, a + 1, b, ly, tall);
        assert(line_sprites_from(oam, a, ly, tall) =~= line_sprites_from(oam, a + 1, ly, tall));
    }
}

fn sprite_on_line(s: &Sprite, ly: u8, tall: bool) -> (r: bool)
    requires
        ly <= 239,
    ensures
        r == on_line(*s, ly, tall),
{
    let bottom = s.y.wrapping_add(if tall { 15 } else { 7 });
    s.y <= ly + 16 && ly + 16 <= bottom
}

impl PPU {
    /// The sprites of line LY, found from OAM.
    pub fn scan_sprites(&self, tall: bool) -> (r: Vec<Sprite>)
        requires
            self.lcd.ly <= 239,
        ensures
            r@ == scan_line(self.oam@, self.lcd.ly, tall),
            r@.len() <= MAX_LINE_SPRITES,
    {
        let ly = self.lcd.ly;
        let ghost oam = self.oam@;
        let mut lo: u16 = 256;
        let mut hi: u16 = 0;
        let mut i: usize = 0;
        while i < 40
            invariant
                oam == self.oam@,
                ly == self.lcd.ly,
                ly <= 239,
                i <= 40,
                lo <= 256,
                hi <= 255,
                forall|j: int| 0 <= j < i && on_line(#[trigger] oam[j], ly, tall) ==> lo <= oam[j].x <= hi,
            decreases 40 - i,
        {
            let s = self.oam[i];
            if sprite_on_line(&s, ly, tall) {
                if (s.x as u16) < lo {
                    lo = s.x as u16;
                }
                if (s.x as u16) > hi {
                    hi = s.x as u16;
                }
            }
            i = i + 1;
        }
        proof {
            assert forall|k: int| 0 <= k < lo implies none_at(oam, oam.len() as int, k, ly, tall) by {}
            lemma_skip_keys(oam, 0, lo as int, ly, tall);
        }
        let mut res: Vec<Sprite> = Vec::new();
        if lo <= hi {
            let mut k: u16 = lo;
            while k <= hi
                invariant
                    oam == self.oam@,
                    ly == self.lcd.ly,
                    ly <= 239,
                    lo <= k <= hi + 1,
                    hi <= 255,
                    forall|j: int| 0 <= j < 40 && on_line(#[trigger] oam[j], ly, tall) ==> lo <= oam[j].x <= hi,
                    res@ + line_sprites_from(oam, k as int, ly, tall) == line_sprites_from(oam, lo as int, ly, tall),
                decreases hi + 1 - k,
            {
                let ghost before = res@;
                let mut j: usize = 0;
                while j < 40
                    invariant
                        oam == self.oam@,
                        ly == self.lcd.ly,
                        ly <= 239,
                        k <= 255,
                        j <= 40,
                        res@ == before + line_sprites_at(oam, j as int, k as int, ly, tall),
                        line_sprites_at(oam, j as int, k as int, ly, tall).len() <= j,
                    decreases 40 - j,
                {
                    let s = self.oam[j];
                    if s.x as u16 == k && sprite_on_line(&s, ly, tall) {
                        res.push(s);
                    }
                    proof {
                        assert(oam[j as int] == s);
                        assert(res@ =~= before + line_sprites_at(oam, j + 1, k as int, ly, tall));
                    }
                    j = j + 1;
                }
                proof {
                    assert(line_sprites_from(oam, k as int, ly, tall) =~= line_sprites_at(oam, 40, k as int, ly, tall)
                        + line_sprites_from(oam, k + 1, ly, tall));
                    assert(res@ + line_sprites_from(oam, k + 1, ly, tall) =~= before + line_sprites_from(oam, k as int, ly, tall));
                }
                k = k + 1;
            }
            proof {
                assert forall|k: int| hi + 1 <= k < 256 implies none_at(oam, oam.len() as int, k, ly, tall) by {}
                lemma_skip_keys(oam, hi + 1, 256, ly, tall);
                assert(res@ =~= line_sprites_from(oam, lo as int, ly, tall));
            }
        } else {
            proof {
                assert forall|k: int| lo <= k < 256 implies none_at(oam, oam.len() as int, k, ly, tall) by {}
                lemma_skip_keys(oam, lo as int, 256, ly, tall);
                assert(res@ =~= line_sprites_from(oam, lo as int, ly, tall));
            }
        }
        res.truncate(MAX_LINE_SPRITES);
        res
    }
}

} // verus!
