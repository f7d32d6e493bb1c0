use vstd::prelude::*;
use crate::bits::{lemma_flag_bits, lemma_u16_fields, lemma_u16_join};

verus! {

/// Flag bits of F.
pub const FLAG_Z: u8 = 0x80;
pub const FLAG_N: u8 = 0x40;
pub const FLAG_H: u8 = 0x20;
pub const FLAG_C: u8 = 0x10;

/// A flag of F, by name.
#[derive(Clone, Copy, Debug, PartialEq, Eq, Structural)]
pub enum CPUFlags {
    Z,
    N,
    H,
    C,
}

impl CPUFlags {
    /// The bit position of the flag in F.
    pub open spec fn position(self) -> u8 {
        match self {
            CPUFlags::Z => 7,
            CPUFlags::N => 6,
            CPUFlags::H => 5,
            CPUFlags::C => 4,
        }
    }

    /// The bit position of the flag in F (Z is bit 7, C bit 4).
    pub fn bit(&self) -> (r: u8)
        ensures
            r == self.position(),
    {
        match self {
            CPUFlags::Z => 7,
            CPUFlags::N => 6,
            CPUFlags::H => 5,
            CPUFlags::C => 4,
        }
    }

    /// The mask of the flag in F.
    pub fn mask(&self) -> (r: u8)
        ensures
            *self == CPUFlags::Z ==> r == FLAG_Z,
            *self == CPUFlags::N ==> r == FLAG_N,
            *self == CPUFlags::H ==> r == FLAG_H,
            *self == CPUFlags::C ==> r == FLAG_C,
    {
        match self {
            CPUFlags::Z => FLAG_Z,
            CPUFlags::N => FLAG_N,
            CPUFlags::H => FLAG_H,
            CPUFlags::C => FLAG_C,
        }
    }
}

/// A register name.
#[derive(Clone, Copy, Debug, PartialEq, Eq, Structural)]
pub enum CPURegisterId {
    A,
    F,
    B,
    C,
    D,
    E,
    H,
    L,
    AF,
    BC,
    DE,
    HL,
    PC,
    SP,
}

/// The register names under the name the first instruction tables used.
pub type CPURegister = CPURegisterId;

/// Whether a register name denotes an 8-bit register.
pub open spec fn is_r8(id: CPURegisterId) -> bool {
    match id {
        CPURegisterId::A | CPURegisterId::F | CPURegisterId::B | CPURegisterId::C | CPURegisterId::D
        | CPURegisterId::E | CPURegisterId::H | CPURegisterId::L => true,
        _ => false,
    }
}

impl CPURegisterId {
    /// Whether the register is one of the 16-bit ones (after L in declaration order).
    pub fn is_16bit(&self) -> (r: bool)
        ensures
            r == !is_r8(*self),
    {
        match self {
            CPURegisterId::A | CPURegisterId::F | CPURegisterId::B | CPURegisterId::C
            | CPURegisterId::D | CPURegisterId::E | CPURegisterId::H | CPURegisterId::L => false,
            _ => true,
        }
    }
}

/// The register file.
#[derive(Clone, Copy, Debug, PartialEq, Eq, Structural)]
pub struct CPURegisters {
    pub a: u8,
    pub f: u8,
    pub b: u8,
    pub c: u8,
    pub d: u8,
    pub e: u8,
    pub h: u8,
    pub l: u8,
    pub pc: u16,
    pub sp: u16,
}

/// The 16-bit value of a register pair.
pub open spec fn pair(hi: u8, lo: u8) -> u16 {
    (hi * 256 + lo) as u16
}

/// `f` after one flag update: -1 keeps the bit; any other value `v` replaces
/// the bit by `mask * v` (so 0 clears it and 1 sets it; a larger `v` sets the
/// bits of `mask * v`).
pub open spec fn apply_flag(f: u8, mask: u8, v: i8) -> u8 {
    if v == -1 {
        f
    } else if v == 0 {
        f & !mask
    } else if v == 1 {
        f | mask
    } else {
        (f & !mask) | ((mask * (v as u8)) as u8)
    }
}

/// F after `set_flags(z, n, h, c)`.
pub open spec fn flags_after(f: u8, z: i8, n: i8, h: i8, c: i8) -> u8 {
    apply_flag(apply_flag(apply_flag(apply_flag(f, FLAG_Z, z), FLAG_N, n), FLAG_H, h), FLAG_C, c)
}

/// The i8 flag argument for a boolean condition.
pub open spec fn flag_arg(b: bool) -> i8 {
    if b { 1 } else { 0 }
}

impl CPURegisters {
    /// The register values after power-up (as the boot ROM leaves them).
    pub open spec fn new_spec(pc: u16) -> CPURegisters {
        CPURegisters { a: 0x01, f: 0xb0, b: 0x00, c: 0x13, d: 0x00, e: 0xd8, h: 0x01, l: 0x4d, sp: 0xfffe, pc }
    }

    /// The registers after power-up, starting at `pc`.
    pub fn new(pc: u16) -> (r: Self)
        ensures
            r == Self::new_spec(pc),
    {
        CPURegisters { a: 0x01, f: 0xb0, b: 0x00, c: 0x13, d: 0x00, e: 0xd8, h: 0x01, l: 0x4d, sp: 0xfffe, pc }
    }

    /// The value of an 8-bit register.
    pub open spec fn reg8(self, id: CPURegisterId) -> u8 {
        match id {
            CPURegisterId::A => self.a,
            CPURegisterId::F => self.f,
            CPURegisterId::B => self.b,
            CPURegisterId::C => self.c,
            CPURegisterId::D => self.d,
            CPURegisterId::E => self.e,
            CPURegisterId::H => self.h,
            _ => self.l,
        }
    }

    /// The value of a 16-bit register.
    pub open spec fn reg16(self, id: CPURegisterId) -> u16 {
        match id {
            CPURegisterId::AF => pair(self.a, self.f),
            CPURegisterId::BC => pair(self.b, self.c),
            CPURegisterId::DE => pair(self.d, self.e),
            CPURegisterId::HL => pair(self.h, self.l),
            CPURegisterId::PC => self.pc,
            _ => self.sp,
        }
    }

    /// The registers after `set_register(id, value)`: an 8-bit register takes
    /// the low byte, a pair the high byte in its first and the low byte in its
    /// second register.
    pub open spec fn with_reg(self, id: CPURegisterId, value: u16) -> CPURegisters {
        let lo = (value % 256) as u8;
        let hi = (value / 256) as u8;
        match id {
            CPURegisterId::A => CPURegisters { a: lo, ..self },
            CPURegisterId::F => CPURegisters { f: lo, ..self },
            CPURegisterId::B => CPURegisters { b: lo, ..self },
            CPURegisterId::C => CPURegisters { c: lo, ..self },
            CPURegisterId::D => CPURegisters { d: lo, ..self },
            CPURegisterId::E => CPURegisters { e: lo, ..self },
            CPURegisterId::H => CPURegisters { h: lo, ..self },
            CPURegisterId::L => CPURegisters { l: lo, ..self },
            CPURegisterId::AF => CPURegisters { a: hi, f: lo, ..self },
            CPURegisterId::BC => CPURegisters { b: hi, c: lo, ..self },
            CPURegisterId::DE => CPURegisters { d: hi, e: lo, ..self },
            CPURegisterId::HL => CPURegisters { h: hi, l: lo, ..self },
            CPURegisterId::PC => CPURegisters { pc: value, ..self },
            CPURegisterId::SP => CPURegisters { sp: value, ..self },
        }
    }

    /// Flag `flag` of F as 0 or 1.
    pub open spec fn flag(self, flag: u8) -> u8 {
        if self.f & flag == flag { 1 } else { 0 }
    }

    /// The registers after `set_flags(z, n, h, c)`.
    pub open spec fn with_flags(self, z: i8, n: i8, h: i8, c: i8) -> CPURegisters {
        CPURegisters { f: flags_after(self.f, z, n, h, c), ..self }
    }

    pub fn set_register(&mut self, register: &CPURegisterId, value: u16)
        ensures
            *final(self) == old(self).with_reg(*register, value),
    {
        let lo = (value & 0xff) as u8;
        let hi = (value >> 8) as u8;
        assert(value & 0xff == value % 256) by { lemma_u16_fields(value); }
        assert(value >> 8 == value / 256) by { lemma_u16_fields(value); }
        match register {
            CPURegisterId::A => self.a = lo,
            CPURegisterId::F => self.f = lo,
            CPURegisterId::B => self.b = lo,
            CPURegisterId::C => self.c = lo,
            CPURegisterId::D => self.d = lo,
            CPURegisterId::E => self.e = lo,
            CPURegisterId::H => self.h = lo,
            CPURegisterId::L => self.l = lo,
            CPURegisterId::AF => {
                self.a = hi;
                self.f = lo;
            },
            CPURegisterId::BC => {
                self.b = hi;
                self.c = lo;
            },
            CPURegisterId::DE => {
                self.d = hi;
                self.e = lo;
            },
            CPURegisterId::HL => {
                self.h = hi;
                self.l = lo;
            },
            CPURegisterId::PC => self.pc = value,
            CPURegisterId::SP => self.sp = value,
        }
    }

    pub fn get_register(&self, register: &CPURegisterId) -> (r: u8)
        requires
            is_r8(*register),
        ensures
            r == self.reg8(*register),
    {
        match register {
            CPURegisterId::A => self.a,
            CPURegisterId::F => self.f,
            CPURegisterId::B => self.b,
            CPURegisterId::C => self.c,
            CPURegisterId::D => self.d,
            CPURegisterId::E => self.e,
            CPURegisterId::H => self.h,
            _ => self.l,
        }
    }

    pub fn get_register16(&self, register: &CPURegisterId) -> (r: u16)
        requires
            !is_r8(*register),
        ensures
            r == self.reg16(*register),
    {
        let (hi, lo) = match register {
            CPURegisterId::AF => (self.a, self.f),
            CPURegisterId::BC => (self.b, self.c),
            CPURegisterId::DE => (self.d, self.e),
            CPURegisterId::HL => (self.h, self.l),
            CPURegisterId::PC => return self.pc,
            _ => return self.sp,
        };
        assert(((hi as u16) << 8u16) | (lo as u16) == hi * 256 + lo) by { lemma_u16_join(hi, lo); }
        ((hi as u16) << 8) | lo as u16
    }

    pub fn get_flag(&self, flag: u8) -> (r: u8)
        ensures
            r == self.flag(flag),
    {
        if self.f & flag == flag { 1 } else { 0 }
    }

    /// Updates the four flags; -1 leaves a flag as it is, another value `v`
    /// puts `mask * v` in the flag's place (the product must fit in a byte).
    pub fn set_flags(&mut self, z: i8, n: i8, h: i8, c: i8)
        requires
            -1 <= z <= 1 && -1 <= n <= 3 && -1 <= h <= 7 && -1 <= c <= 15,
        ensures
            *final(self) == old(self).with_flags(z, n, h, c),
    {
        if z != -1 {
            let f = self.f;
            proof {
                if 0 <= z <= 1 {
                    lemma_flag_bits(f, z as u8);
                }
            }
            self.f = (self.f & !FLAG_Z) | (FLAG_Z * z as u8);
        }
        if n != -1 {
            let f = self.f;
            proof {
                if 0 <= n <= 1 {
                    lemma_flag_bits(f, n as u8);
                }
            }
            self.f = (self.f & !FLAG_N) | (FLAG_N * n as u8);
        }
        if h != -1 {
            let f = self.f;
            proof {
                if 0 <= h <= 1 {
                    lemma_flag_bits(f, h as u8);
                }
            }
            self.f = (self.f & !FLAG_H) | (FLAG_H * h as u8);
        }
        if c != -1 {
            let f = self.f;
            proof {
                if 0 <= c <= 1 {
                    lemma_flag_bits(f, c as u8);
                }
            }
            self.f = (self.f & !FLAG_C) | (FLAG_C * c as u8);
        }
    }
}

/// Reading a register pair gives back what was written to it.
pub proof fn lemma_pair_roundtrip(regs: CPURegisters, id: CPURegisterId, value: u16)
    requires
        !is_r8(id),
    ensures
        regs.with_reg(id, value).reg16(id) == value,
{
}

/// Setting one flag leaves the other bits of F alone, and `flag` reads the new
/// value back.
pub proof fn lemma_flag_update(f: u8, v: i8)
    requires
        0 <= v <= 1,
    ensures
        apply_flag(f, FLAG_Z, v) & FLAG_Z == FLAG_Z <==> v == 1,
        apply_flag(f, FLAG_C, v) & FLAG_C == FLAG_C <==> v == 1,
        apply_flag(f, FLAG_Z, v) & 0x7f == f & 0x7f,
{
    assert(v == 0 ==> (f & !0x80u8) & 0x80 != 0x80) by { lemma_flag_bits(f, 0); }
    assert((f | 0x80u8) & 0x80 == 0x80) by { lemma_flag_bits(f, 0); }
    assert(v == 0 ==> (f & !0x10u8) & 0x10 != 0x10) by { lemma_flag_bits(f, 0); }
    assert((f | 0x10u8) & 0x10 == 0x10) by { lemma_flag_bits(f, 0); }
    assert((f & !0x80u8) & 0x7f == f & 0x7f) by { lemma_flag_bits(f, 0); }
    assert((f | 0x80u8) & 0x7f == f & 0x7f) by { lemma_flag_bits(f, 0); }
}


/// The four flag bits are apart: setting or clearing one of them leaves the
/// others as they were.
proof fn lemma_flag_masks(f: u8)
    by (bit_vector)
    ensures
        (f & !0x80u8) & 0x80u8 == 0u8, (f | 0x80u8) & 0x80u8 == 0x80u8,
        (f & !0x40u8) & 0x40u8 == 0u8, (f | 0x40u8) & 0x40u8 == 0x40u8,
        (f & !0x20u8) & 0x20u8 == 0u8, (f | 0x20u8) & 0x20u8 == 0x20u8,
        (f & !0x10u8) & 0x10u8 == 0u8, (f | 0x10u8) & 0x10u8 == 0x10u8,
        (f & !0x80u8) & 0x40u8 == f & 0x40u8, (f | 0x80u8) & 0x40u8 == f & 0x40u8,
        (f & !0x80u8) & 0x20u8 == f & 0x20u8, (f | 0x80u8) & 0x20u8 == f & 0x20u8,
        (f & !0x80u8) & 0x10u8 == f & 0x10u8, (f | 0x80u8) & 0x10u8 == f & 0x10u8,
        (f & !0x40u8) & 0x80u8 == f & 0x80u8, (f | 0x40u8) & 0x80u8 == f & 0x80u8,
        (f & !0x40u8) & 0x20u8 == f & 0x20u8, (f | 0x40u8) & 0x20u8 == f & 0x20u8,
        (f & !0x40u8) & 0x10u8 == f & 0x10u8, (f | 0x40u8) & 0x10u8 == f & 0x10u8,
        (f & !0x20u8) & 0x80u8 == f & 0x80u8, (f | 0x20u8) & 0x80u8 == f & 0x80u8,
        (f & !0x20u8) & 0x40u8 == f & 0x40u8, (f | 0x20u8) & 0x40u8 == f & 0x40u8,
        (f & !0x20u8) & 0x10u8 == f & 0x10u8, (f | 0x20u8) & 0x10u8 == f & 0x10u8,
        (f & !0x10u8) & 0x80u8 == f & 0x80u8, (f | 0x10u8) & 0x80u8 == f & 0x80u8,
        (f & !0x10u8) & 0x40u8 == f & 0x40u8, (f | 0x10u8) & 0x40u8 == f & 0x40u8,
        (f & !0x10u8) & 0x20u8 == f & 0x20u8, (f | 0x10u8) & 0x20u8 == f & 0x20u8,
{
}

/// Each flag reads back as `set_flags` left it: as its argument when that is 0
/// or 1, and unchanged for -1.
pub proof fn lemma_flags_read_back(r: CPURegisters, z: i8, n: i8, h: i8, c: i8)
    requires
        -1 <= z <= 1 && -1 <= n <= 1 && -1 <= h <= 1 && -1 <= c <= 1,
    ensures
        r.with_flags(z, n, h, c).flag(FLAG_Z) == (if z == -1 { r.flag(FLAG_Z) as int } else { z as int }),
        r.with_flags(z, n, h, c).flag(FLAG_N) == (if n == -1 { r.flag(FLAG_N) as int } else { n as int }),
        r.with_flags(z, n, h, c).flag(FLAG_H) == (if h == -1 { r.flag(FLAG_H) as int } else { h as int }),
        r.with_flags(z, n, h, c).flag(FLAG_C) == (if c == -1 { r.flag(FLAG_C) as int } else { c as int }),
{
    let f0 = r.f;
    let f1 = apply_flag(f0, FLAG_Z, z);
    let f2 = apply_flag(f1, FLAG_N, n);
    let f3 = apply_flag(f2, FLAG_H, h);
    lemma_flag_masks(f0);
    lemma_flag_masks(f1);
    lemma_flag_masks(f2);
    lemma_flag_masks(f3);
}

} // verus!
