use vstd::prelude::*;
use crate::bits::{lemma_u8_fields};
use crate::cpu::cpu::LR35902CPU;
use crate::cpu::instructions::InstrKind;
use crate::cpu::instructions::arithmetic::{alu8_flags, alu8_value};
use crate::cpu::registers::{flag_arg, lemma_flags_read_back, CPURegisterId, FLAG_C, FLAG_H, FLAG_N};

verus! {

/// The adjustment DAA adds to (or, after a subtraction, takes from) A.
pub open spec fn daa_correction(a: u8, n: bool, h: bool, c: bool) -> u8 {
    ((if h || (!n && a % 16 > 9) { 0x06int } else { 0 }) + (if c || (!n && a > 0x99) { 0x60int } else { 0 })) as u8
}

/// A after DAA.
pub open spec fn daa_value(a: u8, n: bool, h: bool, c: bool) -> u8 {
    let k = daa_correction(a, n, h, c);
    (if n { (a - k + 256) % 256 } else { (a + k) % 256 }) as u8
}

impl LR35902CPU {
    /// The CPU after CCF: C complemented, N and H cleared.
    #[verifier::opaque]
    pub open spec fn after_ccf(self) -> LR35902CPU {
        self.with_flags(-1i8, 0, 0, (1 - self.registers.flag(FLAG_C)) as i8)
    }

    /// The CPU after CPL: A complemented, N and H set.
    #[verifier::opaque]
    pub open spec fn after_cpl(self) -> LR35902CPU {
        self.with_reg(CPURegisterId::A, (255 - self.registers.a) as u16).with_flags(-1i8, 1, 1, -1i8)
    }

    /// The CPU after SCF: C set, N and H cleared.
    #[verifier::opaque]
    pub open spec fn after_scf(self) -> LR35902CPU {
        self.with_flags(-1i8, 0, 0, 1)
    }

    /// The CPU after DAA: A adjusted to packed BCD, Z from the result, N kept,
    /// H cleared, C set when the high digit was adjusted.
    #[verifier::opaque]
    pub open spec fn after_daa(self) -> LR35902CPU {
        let r = self.registers;
        let (a, n, h, c) = (r.a, r.flag(FLAG_N) == 1, r.flag(FLAG_H) == 1, r.flag(FLAG_C) == 1);
        let v = daa_value(a, n, h, c);
        self.with_flags(flag_arg(v == 0), -1i8, 0, flag_arg(c || (!n && a > 0x99)))
            .with_reg(CPURegisterId::A, v as u16)
    }
}

/// CCF: complement the carry; N and H cleared.
pub fn ccf(cpu: &mut LR35902CPU) -> (cycles: u8)
    requires
        old(cpu).wf(),
    ensures
        final(cpu).wf(),
        *final(cpu) == old(cpu).after_ccf(),
        cycles == 1,
{
    proof {
        reveal(LR35902CPU::after_ccf);
    }
    let c = cpu.get_flag(FLAG_C);
    cpu.set_flags(-1, 0, 0, if c == 0 { 1 } else { 0 });
    1
}

/// CPL: A complemented; N and H set.
pub fn cpl(cpu: &mut LR35902CPU) -> (cycles: u8)
    requires
        old(cpu).wf(),
    ensures
        final(cpu).wf(),
        *final(cpu) == old(cpu).after_cpl(),
        cycles == 1,
{
    proof {
        reveal(LR35902CPU::after_cpl);
    }
    let a = cpu.get_register(&CPURegisterId::A);
    assert(!a == 255 - a) by { lemma_u8_fields(a); }
    cpu.set_register(&CPURegisterId::A, (!a) as u16);
    cpu.set_flags(-1, 1, 1, -1);
    1
}

/// SCF: set the carry; N and H cleared.
pub fn scf(cpu: &mut LR35902CPU) -> (cycles: u8)
    requires
        old(cpu).wf(),
    ensures
        final(cpu).wf(),
        *final(cpu) == old(cpu).after_scf(),
        cycles == 1,
{
    proof {
        reveal(LR35902CPU::after_scf);
    }
    cpu.set_flags(-1, 0, 0, 1);
    1
}

fn daa_compute(a: u8, n: bool, h: bool, c: bool) -> (r: u8)
    ensures
        r == daa_value(a, n, h, c),
{
    let mut correction: u16 = 0;
    if h || (!n && a % 16 > 9) {
        correction = correction + 0x06;
    }
    if c || (!n && a > 0x99) {
        correction = correction + 0x60;
    }
    if n {
        ((a as u16 + 256 - correction) % 256) as u8
    } else {
        ((a as u16 + correction) % 256) as u8
    }
}

/// DAA: decimal adjust A after a BCD addition or subtraction.
pub fn daa(cpu: &mut LR35902CPU) -> (cycles: u8)
    requires
        old(cpu).wf(),
    ensures
        final(cpu).wf(),
        *final(cpu) == old(cpu).after_daa(),
        cycles == 1,
{
    proof {
        reveal(LR35902CPU::after_daa);
    }
    let c = cpu.get_flag(FLAG_C) == 1;
    let h = cpu.get_flag(FLAG_H) == 1;
    let n = cpu.get_flag(FLAG_N) == 1;
    let a = cpu.get_register(&CPURegisterId::A);
    let v = daa_compute(a, n, h, c);
    let high = c || (!n && a > 0x99);
    cpu.set_flags(if v == 0 { 1 } else { 0 }, -1, 0, if high { 1 } else { 0 });
    cpu.set_register(&CPURegisterId::A, v as u16);
    1
}

/// HALT: stop executing until an interrupt is pending.
pub fn halt(cpu: &mut LR35902CPU) -> (cycles: u8)
    requires
        old(cpu).wf(),
    ensures
        final(cpu).wf(),
        *final(cpu) == (LR35902CPU { halt: true, ..*old(cpu) }),
        cycles == 1,
{
    cpu.halt = true;
    proof { reveal(LR35902CPU::wf); }
    1
}

/// STOP: halts like HALT.
pub fn stop(cpu: &mut LR35902CPU) -> (cycles: u8)
    requires
        old(cpu).wf(),
    ensures
        final(cpu).wf(),
        *final(cpu) == (LR35902CPU { halt: true, ..*old(cpu) }),
        cycles == 1,
{
    cpu.halt = true;
    proof { reveal(LR35902CPU::wf); }
    1
}

/// EI: interrupts are enabled after the next instruction; wakes the CPU.
pub fn ei(cpu: &mut LR35902CPU) -> (cycles: u8)
    requires
        old(cpu).wf(),
    ensures
        final(cpu).wf(),
        *final(cpu) == (LR35902CPU { enabling_ints: true, halt: false, ..*old(cpu) }),
        cycles == 1,
{
    cpu.enabling_ints = true;
    cpu.halt = false;
    proof { reveal(LR35902CPU::wf); }
    1
}

/// DI: interrupts disabled at once.
pub fn di(cpu: &mut LR35902CPU) -> (cycles: u8)
    requires
        old(cpu).wf(),
    ensures
        final(cpu).wf(),
        *final(cpu) == (LR35902CPU { int_master: false, ..*old(cpu) }),
        cycles == 1,
{
    cpu.int_master = false;
    proof { reveal(LR35902CPU::wf); }
    1
}


/// Whether `x` is a packed BCD byte: two decimal digits, one per nibble.
pub open spec fn is_bcd(x: u8) -> bool {
    x / 16 < 10 && x % 16 < 10
}

/// The number (0-99) a packed BCD byte stands for.
pub open spec fn bcd_value(x: u8) -> int {
    (x / 16) * 10 + x % 16
}

/// The packed BCD byte of a number 0-99.
pub open spec fn bcd_byte(d: int) -> u8 {
    ((d / 10) * 16 + d % 10) as u8
}

/// DAA on the result of a BCD subtraction `x - y` (A and the flags as SUB
/// leaves them) gives the BCD difference, modulo 100.
proof fn lemma_daa_sub_value(x: u8, y: u8)
    by (bit_vector)
    requires
        is_bcd(x),
        is_bcd(y),
    ensures
        daa_value(((x - y + 256) % 256) as u8, true, x % 16 < y % 16, x < y)
            == bcd_byte((bcd_value(x) - bcd_value(y) + 100) % 100),
        (x >= y) == (bcd_value(x) >= bcd_value(y)),
        bcd_value(x) < 100,
        bcd_value(y) < 100,
{
}

/// DAA on the result of a BCD addition `x + y` (A and the flags as ADD leaves
/// them) gives the BCD sum, modulo 100, and adjusts the high digit exactly
/// when the sum reaches 100.
proof fn lemma_daa_add_value(x: u8, y: u8)
    by (bit_vector)
    requires
        is_bcd(x),
        is_bcd(y),
    ensures
        daa_value(((x + y) % 256) as u8, false, x % 16 + y % 16 > 15, x + y > 255)
            == bcd_byte((bcd_value(x) + bcd_value(y)) % 100),
        (x + y > 255 || ((x + y) % 256) as u8 > 0x99) == (bcd_value(x) + bcd_value(y) >= 100),
{
}

proof fn lemma_mod_100(d: int)
    requires
        0 <= d < 100,
    ensures
        (d + 100) % 100 == d,
{
}

/// BCD subtraction: when A and the flags are as SUB leaves them for packed BCD
/// bytes `x - y`, DAA leaves in A the BCD encoding of the decimal difference
/// (borrowing 100 when `x < y`), sets C exactly when it borrowed, keeps N set
/// and clears H.
#[verifier::rlimit(30)]
pub proof fn lemma_daa_after_sub(cpu: LR35902CPU, x: u8, y: u8)
    requires
        is_bcd(x),
        is_bcd(y),
        cpu.registers.a == alu8_value(InstrKind::Sub, x, y, 0),
        cpu.registers.flag(FLAG_N) == alu8_flags(InstrKind::Sub, x, y, 0).1,
        cpu.registers.flag(FLAG_H) == alu8_flags(InstrKind::Sub, x, y, 0).2,
        cpu.registers.flag(FLAG_C) == alu8_flags(InstrKind::Sub, x, y, 0).3,
    ensures
        cpu.after_daa().registers.a == bcd_byte((bcd_value(x) - bcd_value(y) + 100) % 100),
        x >= y ==> cpu.after_daa().registers.a == bcd_byte(bcd_value(x) - bcd_value(y)),
        cpu.after_daa().registers.flag(FLAG_C) == (if x < y { 1int } else { 0 }),
        cpu.after_daa().registers.flag(FLAG_N) == 1,
        cpu.after_daa().registers.flag(FLAG_H) == 0,
{
    reveal(LR35902CPU::after_daa);
    let r = cpu.registers;
    assert(r.flag(FLAG_N) == 1 && (r.flag(FLAG_H) == 1) == (x % 16 < y % 16) && (r.flag(FLAG_C) == 1) == (x < y));
    let v = daa_value(r.a, true, x % 16 < y % 16, x < y);
    assert(v == bcd_byte((bcd_value(x) - bcd_value(y) + 100) % 100)) by {
        lemma_daa_sub_value(x, y);
    }
    if x >= y {
        lemma_daa_sub_value(x, y);
        lemma_mod_100(bcd_value(x) - bcd_value(y));
    }
    lemma_flags_read_back(r, flag_arg(v == 0), -1i8, 0, flag_arg(x < y));
}

/// BCD addition: when A and the flags are as ADD leaves them for packed BCD
/// bytes `x + y`, DAA leaves in A the BCD encoding of the decimal sum modulo
/// 100, sets C exactly when the sum reaches 100, keeps N clear and clears H.
pub proof fn lemma_daa_after_add(cpu: LR35902CPU, x: u8, y: u8)
    requires
        is_bcd(x),
        is_bcd(y),
        cpu.registers.a == alu8_value(InstrKind::Add, x, y, 0),
        cpu.registers.flag(FLAG_N) == alu8_flags(InstrKind::Add, x, y, 0).1,
        cpu.registers.flag(FLAG_H) == alu8_flags(InstrKind::Add, x, y, 0).2,
        cpu.registers.flag(FLAG_C) == alu8_flags(InstrKind::Add, x, y, 0).3,
    ensures
        cpu.after_daa().registers.a == bcd_byte((bcd_value(x) + bcd_value(y)) % 100),
        cpu.after_daa().registers.flag(FLAG_C) == (if bcd_value(x) + bcd_value(y) >= 100 { 1int } else { 0 }),
        cpu.after_daa().registers.flag(FLAG_N) == 0,
        cpu.after_daa().registers.flag(FLAG_H) == 0,
{
    reveal(LR35902CPU::after_daa);
    lemma_daa_add_value(x, y);
    let r = cpu.registers;
    let high = x + y > 255 || r.a > 0x99;
    let v = daa_value(r.a, false, x % 16 + y % 16 > 15, x + y > 255);
    lemma_flags_read_back(r, flag_arg(v == 0), -1i8, 0, flag_arg(high));
}

} // verus!
