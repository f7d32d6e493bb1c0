use vstd::prelude::*;

verus! {

// Bit-level facts about register fields, proved once by the bit-vector solver
// and used by the devices that pack and unpack their registers.

/// The fields of a byte as arithmetic: masks, shifted fields, complement.
pub proof fn lemma_u8_fields(x: u8)
    ensures
        x & 1 == x % 2,
        x & 0b11 == x % 4,
        x & 7 == x % 8,
        x & 0b111 == x % 8,
        x & 0xf == x % 16,
        x & 0x1f == x % 32,
        x & 0x3f == x % 64,
        x & 0x7f == x % 128,
        x & 0xf0 == x / 16 * 16,
        (x >> 3) & 1 == (x / 8) % 2,
        ((x >> 3) & 0x1 == 1) == ((x / 8) % 2 == 1),
        (x >> 4) & 7 == (x / 16) % 8,
        (x >> 4) & 0xf == x / 16,
        (x >> 4) & 0b111 == (x / 16) % 8,
        (x >> 5) & 0b11 == (x / 32) % 4,
        (x >> 6) & 0x3 == x / 64,
        ((x >> 7) & 1 == 1) == (x >= 128),
        ((x >> 7) & 0x1 == 1) == (x >= 128),
        (x & 0x80 == 0x80) == (x >= 128),
        x >> 7u8 <= 1,
        x & 1 <= 1,
        !x == 255 - x,
        (x as usize) & 0x3f == x % 64,
        ((x >> 4) & 7) * 16 + ((x >> 3) & 1) * 8 + (x & 7) == x % 128,
        x < 128 ==> x | 0x80 == x + 0x80,
        x < 4 ==> (x << 6) | 0x3f == x * 64 + 0x3f,
        x <= 3 ==> (x << 5) | 0x9f == x * 32 + 0x9f,
        x <= 1 ==> 0xfe | x == 0xfe + x,
        x & 0x30 != 0 && x & 0x30 != 0x30 && x & 0x30 != 0x10 ==> x & 0x30 == 0x20,
{
    assert({
        &&& x & 1 == x % 2
        &&& x & 0b11 == x % 4
        &&& x & 7 == x % 8
        &&& x & 0b111 == x % 8
        &&& x & 0xf == x % 16
        &&& x & 0x1f == x % 32
        &&& x & 0x3f == x % 64
        &&& x & 0x7f == x % 128
        &&& x & 0xf0 == x / 16 * 16
        &&& (x >> 3) & 1 == (x / 8) % 2
        &&& ((x >> 3) & 0x1 == 1) == ((x / 8) % 2 == 1)
        &&& (x >> 4) & 7 == (x / 16) % 8
        &&& (x >> 4) & 0xf == x / 16
        &&& (x >> 4) & 0b111 == (x / 16) % 8
        &&& (x >> 5) & 0b11 == (x / 32) % 4
        &&& (x >> 6) & 0x3 == x / 64
        &&& ((x >> 7) & 1 == 1) == (x >= 128)
        &&& ((x >> 7) & 0x1 == 1) == (x >= 128)
        &&& (x & 0x80 == 0x80) == (x >= 128)
        &&& x >> 7u8 <= 1
        &&& x & 1 <= 1
        &&& !x == 255 - x
        &&& (x as usize) & 0x3f == x % 64
        &&& ((x >> 4) & 7) * 16 + ((x >> 3) & 1) * 8 + (x & 7) == x % 128
        &&& x < 128 ==> x | 0x80 == x + 0x80
        &&& x < 4 ==> (x << 6) | 0x3f == x * 64 + 0x3f
        &&& x <= 3 ==> (x << 5) | 0x9f == x * 32 + 0x9f
        &&& x <= 1 ==> 0xfe | x == 0xfe + x
        &&& x & 0x30 != 0 && x & 0x30 != 0x30 && x & 0x30 != 0x10 ==> x & 0x30 == 0x20
    }) by (bit_vector);
}

/// The fields of a 16-bit word as arithmetic.
pub proof fn lemma_u16_fields(v: u16)
    ensures
        v & 0xff == v % 256,
        v >> 8 == v / 256,
        v >> 8u16 == v / 256,
        v & 0xfff0 == v / 16 * 16,
        v & 0x1ff0 == v % 0x2000 / 16 * 16,
        (v & 0xfff0) | 0x8000 == (v / 16 * 16) % 0x8000 + 0x8000,
        v & 0x1f == v % 32,
        (v as u8) & 0x1f == v % 32,
        (v >> 5u16) & 0x1f == v / 32 % 32,
        (v >> 10u16) & 0x1f == v / 1024 % 32,
{
    assert({
        &&& v & 0xff == v % 256
        &&& v >> 8 == v / 256
        &&& v >> 8u16 == v / 256
        &&& v & 0xfff0 == v / 16 * 16
        &&& v & 0x1ff0 == v % 0x2000 / 16 * 16
        &&& (v & 0xfff0) | 0x8000 == (v / 16 * 16) % 0x8000 + 0x8000
        &&& v & 0x1f == v % 32
        &&& (v as u8) & 0x1f == v % 32
        &&& (v >> 5u16) & 0x1f == v / 32 % 32
        &&& (v >> 10u16) & 0x1f == v / 1024 % 32
    }) by (bit_vector);
}

/// A word made of a high and a low byte.
pub proof fn lemma_u16_join(hi: u8, lo: u8)
    ensures
        ((hi as u16) << 8u16) | (lo as u16) == lo + hi * 256,
        (((hi as u16) << 8u16) | (lo as u16)) >> 1u16 == (hi * 256 + lo) / 2,
{
    assert({
        &&& ((hi as u16) << 8u16) | (lo as u16) == lo + hi * 256
        &&& (((hi as u16) << 8u16) | (lo as u16)) >> 1u16 == (hi * 256 + lo) / 2
    }) by (bit_vector);
}

/// Replacing a byte, or the low bits of a period, in a word.
pub proof fn lemma_u16_with_byte(d: u16, v: u8)
    ensures
        (d & 0xff) | ((v as u16) << 8u16) == d % 256 + v * 256,
        (d & 0xff00) | (v as u16) == d / 256 * 256 + v,
        (d & 0x700) | (v as u16) == (d / 256) % 8 * 256 + v,
        (d & 0xff) | (((v as u16) & 0x7) << 8) == (d % 256) + (v % 8) * 256,
        ((v as u16) & 0b1111111) == v % 128,
        1u16 << 8u16 | (v as u16) == 0x100 + v,
{
    assert({
        &&& (d & 0xff) | ((v as u16) << 8u16) == d % 256 + v * 256
        &&& (d & 0xff00) | (v as u16) == d / 256 * 256 + v
        &&& (d & 0x700) | (v as u16) == (d / 256) % 8 * 256 + v
        &&& (d & 0xff) | (((v as u16) & 0x7) << 8) == (d % 256) + (v % 8) * 256
        &&& ((v as u16) & 0b1111111) == v % 128
        &&& 1u16 << 8u16 | (v as u16) == 0x100 + v
    }) by (bit_vector);
}

/// Rotations through or around the carry, and their inverses.
pub proof fn lemma_rotations(v: u8, c: u8)
    requires
        c <= 1,
    ensures
        ((((v << 1u8) | c) >> 1u8) | ((v >> 7u8) << 7u8)) == v,
        (((v << 1u8) | c) & 1) == c,
        (((v << 1u8) | (v >> 7u8)) >> 1u8) | ((((v << 1u8) | (v >> 7u8)) & 1) << 7u8) == v,
        ((((v >> 1u8) | (c << 7u8)) << 1u8) | (v & 1)) == v,
        (((v >> 1u8) | (c << 7u8)) >> 7u8) == c,
{
    assert({
        &&& ((((v << 1u8) | c) >> 1u8) | ((v >> 7u8) << 7u8)) == v
        &&& (((v << 1u8) | c) & 1) == c
        &&& (((v << 1u8) | (v >> 7u8)) >> 1u8) | ((((v << 1u8) | (v >> 7u8)) & 1) << 7u8) == v
        &&& ((((v >> 1u8) | (c << 7u8)) << 1u8) | (v & 1)) == v
        &&& (((v >> 1u8) | (c << 7u8)) >> 7u8) == c
    }) by (bit_vector) requires c <= 1;
}

/// SWAP is its own inverse; SET and RES then BIT.
pub proof fn lemma_bit_ops(v: u8, b: u8)
    requires
        b < 8,
    ensures
        ({
            let w = ((v & 0xf) << 4u8) | ((v & 0xf0) >> 4u8);
            ((w & 0xf) << 4u8) | ((w & 0xf0) >> 4u8) == v
        }),
        ((v | (1u8 << b)) >> b) & 1 == 1,
        ((v & !(1u8 << b)) >> b) & 1 == 0,
{
    assert({
        &&& ({ let w = ((v & 0xf) << 4u8) | ((v & 0xf0) >> 4u8); ((w & 0xf) << 4u8) | ((w & 0xf0) >> 4u8) == v })
        &&& ((v | (1u8 << b)) >> b) & 1 == 1
        &&& ((v & !(1u8 << b)) >> b) & 1 == 0
    }) by (bit_vector) requires b < 8;
}

/// Setting one flag bit of F from a 0/1 value.
pub proof fn lemma_flag_bits(f: u8, z: u8)
    requires
        z <= 1,
    ensures
        (f & !0x80u8) | ((0x80u8 * z) as u8) == if z == 0 { f & !0x80u8 } else { f | 0x80u8 },
        (f & !0x40u8) | ((0x40u8 * z) as u8) == if z == 0 { f & !0x40u8 } else { f | 0x40u8 },
        (f & !0x20u8) | ((0x20u8 * z) as u8) == if z == 0 { f & !0x20u8 } else { f | 0x20u8 },
        (f & !0x10u8) | ((0x10u8 * z) as u8) == if z == 0 { f & !0x10u8 } else { f | 0x10u8 },
        (f & !0x80u8) & 0x80 != 0x80,
        (f | 0x80u8) & 0x80 == 0x80,
        (f & !0x10u8) & 0x10 != 0x10,
        (f | 0x10u8) & 0x10 == 0x10,
        (f & !0x80u8) & 0x7f == f & 0x7f,
        (f | 0x80u8) & 0x7f == f & 0x7f,
{
    assert({
        &&& (f & !0x80u8) | ((0x80u8 * z) as u8) == if z == 0 { f & !0x80u8 } else { f | 0x80u8 }
        &&& (f & !0x40u8) | ((0x40u8 * z) as u8) == if z == 0 { f & !0x40u8 } else { f | 0x40u8 }
        &&& (f & !0x20u8) | ((0x20u8 * z) as u8) == if z == 0 { f & !0x20u8 } else { f | 0x20u8 }
        &&& (f & !0x10u8) | ((0x10u8 * z) as u8) == if z == 0 { f & !0x10u8 } else { f | 0x10u8 }
        &&& (f & !0x80u8) & 0x80 != 0x80
        &&& (f | 0x80u8) & 0x80 == 0x80
        &&& (f & !0x10u8) & 0x10 != 0x10
        &&& (f | 0x10u8) & 0x10 == 0x10
        &&& (f & !0x80u8) & 0x7f == f & 0x7f
        &&& (f | 0x80u8) & 0x7f == f & 0x7f
    }) by (bit_vector) requires z <= 1;
}

/// STAT: the mode bits and the coincidence bit leave the other bits alone.
pub proof fn lemma_stat_bits(l: u8, val: u8)
    requires
        val <= 3,
    ensures
        ((l & 0xfc) | val) & 3 == val,
        ((l & 0xfc) | val) & 8 == l & 8,
        ((l & 0xfc) | val) & 0x10 == l & 0x10,
        ((l & 0xfc) | val) & 0x20 == l & 0x20,
        (l | 4) & 3 == l & 3,
        ((l | 4) & 0x40 == 0x40) == (l & 0x40 == 0x40),
        (l & !4u8) & 3 == l & 3,
{
    assert({
        &&& ((l & 0xfc) | val) & 3 == val
        &&& ((l & 0xfc) | val) & 8 == l & 8
        &&& ((l & 0xfc) | val) & 0x10 == l & 0x10
        &&& ((l & 0xfc) | val) & 0x20 == l & 0x20
        &&& (l | 4) & 3 == l & 3
        &&& ((l | 4) & 0x40 == 0x40) == (l & 0x40 == 0x40)
        &&& (l & !4u8) & 3 == l & 3
    }) by (bit_vector) requires val <= 3;
}

/// OR with no bits, and regrouping of ORs.
pub proof fn lemma_or_laws(a: u8, b: u8, c: u8, d: u8, e: u8)
    ensures
        a | 0 == a,
        (a | b) | 0 == a | b,
        ((a | b) | c) == a | (b | c),
        ((a | b) | 1) | 2 == a | (((b | 1) | 2) | 0),
        (a | b) | 1 == a | (((b | 1) | 0) | 0),
        (a | b) | 2 == a | (((b | 0) | 0) | 2),
        a | b == a | (((b | 0) | 0) | 0),
        (a | b) | 2 == a | (b | 2),
        a | b == a | (b | 0),
        (((a | b) | c) | d) | e == a | (b | (c | (d | (e | 0)))),
{
    assert({
        &&& a | 0 == a
        &&& (a | b) | 0 == a | b
        &&& ((a | b) | c) == a | (b | c)
        &&& ((a | b) | 1) | 2 == a | (((b | 1) | 2) | 0)
        &&& (a | b) | 1 == a | (((b | 1) | 0) | 0)
        &&& (a | b) | 2 == a | (((b | 0) | 0) | 2)
        &&& a | b == a | (((b | 0) | 0) | 0)
        &&& (a | b) | 2 == a | (b | 2)
        &&& a | b == a | (b | 0)
        &&& (((a | b) | c) | d) | e == a | (b | (c | (d | (e | 0))))
    }) by (bit_vector);
}

/// Registers packed from fields: a high nibble, a direction bit and a low
/// 3-bit field, in either order.
pub proof fn lemma_pack_fields(hi: u8, mid: u8, lo: u8)
    requires
        hi <= 15,
        mid <= 1,
        lo <= 7,
    ensures
        (hi << 4) | (mid << 3) | lo == hi * 16 + mid * 8 + lo,
        lo | (mid << 3) | (hi << 4) == lo + mid * 8 + hi * 16,
        (((hi << 4) | (mid << 3)) & 0xf8 > 0) == (hi != 0 || mid != 0),
{
    assert({
        &&& (hi << 4) | (mid << 3) | lo == hi * 16 + mid * 8 + lo
        &&& lo | (mid << 3) | (hi << 4) == lo + mid * 8 + hi * 16
        &&& (((hi << 4) | (mid << 3)) & 0xf8 > 0) == (hi != 0 || mid != 0)
    }) by (bit_vector) requires hi <= 15, mid <= 1, lo <= 7;
}

/// NR52 from the four channel bits.
pub proof fn lemma_nr52(b1: u8, b2: u8, b3: u8, b4: u8)
    requires
        b1 <= 1 && b2 <= 1 && b3 <= 1 && b4 <= 1,
    ensures
        0xf0u8 | b1 | (b2 << 1) | (b3 << 2) | (b4 << 3) == 0xf0 + b1 + 2 * b2 + 4 * b3 + 8 * b4,
{
    assert({
        &&& 0xf0u8 | b1 | (b2 << 1) | (b3 << 2) | (b4 << 3) == 0xf0 + b1 + 2 * b2 + 4 * b3 + 8 * b4
    }) by (bit_vector) requires b1 <= 1 && b2 <= 1 && b3 <= 1 && b4 <= 1;
}

/// A 5-bit colour component widened to 8 bits.
pub proof fn lemma_widen5(c: u8)
    requires
        c < 32,
    ensures
        (c << 3u8) | (c >> 2u8) == (c * 8) % 256 + c / 4,
{
    assert({
        &&& (c << 3u8) | (c >> 2u8) == (c * 8) % 256 + c / 4
    }) by (bit_vector) requires c < 32;
}

} // verus!
