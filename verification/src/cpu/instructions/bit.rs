use vstd::prelude::*;
use crate::bits::{lemma_bit_ops, lemma_rotations, lemma_u8_fields};
use crate::cpu::cpu::LR35902CPU;
use crate::cpu::instructions::{AddrMode, InstrKind};
use crate::cpu::registers::{flag_arg, is_r8, CPURegisterId, FLAG_C};

verus! {

/// The byte a rotate / shift / swap makes of `v`, with `cf` the carry flag.
pub open spec fn shift_value(kind: InstrKind, v: u8, cf: u8) -> u8 {
    match kind {
        InstrKind::Rlc => (v << 1u8) | (v >> 7u8),
        InstrKind::Rrc => (v >> 1u8) | ((v & 1) << 7u8),
        InstrKind::Rl => (v << 1u8) | cf,
        InstrKind::Rr => (v >> 1u8) | (cf << 7u8),
        InstrKind::Sla => v << 1u8,
        InstrKind::Sra => (v >> 1u8) | (v & 0x80),
        InstrKind::Swap => ((v & 0xf) << 4u8) | ((v & 0xf0) >> 4u8),
        _ => v >> 1u8,
    }
}

/// The carry a rotate / shift / swap of `v` leaves: the bit shifted out
/// (bit 7 to the left, bit 0 to the right), none for SWAP.
pub open spec fn shift_carry(kind: InstrKind, v: u8) -> u8 {
    match kind {
        InstrKind::Rlc | InstrKind::Rl | InstrKind::Sla => v >> 7u8,
        InstrKind::Swap => 0,
        _ => v & 1,
    }
}

/// Whether `kind` is one of the CB-prefixed rotates, shifts and SWAP.
pub open spec fn is_shift(kind: InstrKind) -> bool {
    match kind {
        InstrKind::Rlc | InstrKind::Rrc | InstrKind::Rl | InstrKind::Rr | InstrKind::Sla
        | InstrKind::Sra | InstrKind::Swap | InstrKind::Srl => true,
        _ => false,
    }
}

fn shift_compute(kind: InstrKind, v: u8, cf: u8) -> (r: (u8, u8))
    requires
        is_shift(kind),
        cf <= 1,
    ensures
        r.0 == shift_value(kind, v, cf),
        r.1 == shift_carry(kind, v),
        r.1 <= 1,
{
    assert(v >> 7u8 <= 1 && v & 1 <= 1) by { lemma_u8_fields(v); }
    match kind {
        InstrKind::Rlc => ((v << 1u8) | (v >> 7u8), v >> 7u8),
        InstrKind::Rrc => ((v >> 1u8) | ((v & 1) << 7u8), v & 1),
        InstrKind::Rl => ((v << 1u8) | cf, v >> 7u8),
        InstrKind::Rr => ((v >> 1u8) | (cf << 7u8), v & 1),
        InstrKind::Sla => (v << 1u8, v >> 7u8),
        InstrKind::Sra => ((v >> 1u8) | (v & 0x80), v & 1),
        InstrKind::Swap => (((v & 0xf) << 4u8) | ((v & 0xf0) >> 4u8), 0),
        _ => (v >> 1u8, v & 1),
    }
}

impl LR35902CPU {
    /// Whether the one-byte operand `reg` (a register, or the byte at the
    /// register pair when `in_mem`) can be read.
    pub open spec fn target_ok(self, reg: CPURegisterId, in_mem: bool) -> bool {
        if in_mem { !is_r8(reg) && self.can_read(self.registers.reg16(reg)) } else { is_r8(reg) }
    }

    /// The value of that operand.
    pub open spec fn target(self, reg: CPURegisterId, in_mem: bool) -> u8 {
        if in_mem { self.mem(self.registers.reg16(reg)) } else { self.registers.reg8(reg) }
    }

    /// The CPU with that operand set to `v`.
    pub open spec fn with_target(self, reg: CPURegisterId, in_mem: bool, v: u8) -> LR35902CPU {
        if in_mem { self.with_write(self.registers.reg16(reg), v) } else { self.with_reg(reg, v as u16) }
    }

    /// Whether a CB rotate / shift / SWAP can run on its register or (HL).
    #[verifier::opaque]
    pub open spec fn shift_ok(self) -> bool {
        &&& self.current_instruction.reg1 is Some
        &&& (self.mode() == AddrMode::R || self.mode() == AddrMode::RADDR)
        &&& self.target_ok(self.r1(), self.mode() == AddrMode::RADDR)
    }

    /// The CPU after the rotate / shift / SWAP `kind`: the operand replaced, Z
    /// from the result, N and H cleared, C the bit shifted out.
    #[verifier::opaque]
    pub open spec fn after_shift(self, kind: InstrKind) -> LR35902CPU {
        let in_mem = self.mode() == AddrMode::RADDR;
        let v = self.target(self.r1(), in_mem);
        let r = shift_value(kind, v, self.registers.flag(FLAG_C));
        self.with_target(self.r1(), in_mem, r).with_flags(
            flag_arg(r == 0), 0, 0, shift_carry(kind, v) as i8)
    }

    #[verifier::opaque]
    pub open spec fn shift_cycles(self) -> u8 {
        if self.mode() == AddrMode::RADDR { 4 } else { 2 }
    }

    /// The CPU after RLCA / RRCA / RLA / RRA (`kind` the matching CB
    /// operation): A rotated, Z, N and H cleared, C the bit shifted out.
    #[verifier::opaque]
    pub open spec fn after_rotate_a(self, kind: InstrKind) -> LR35902CPU {
        let v = self.registers.a;
        let r = shift_value(kind, v, self.registers.flag(FLAG_C));
        self.with_reg(CPURegisterId::A, r as u16).with_flags(0, 0, 0, shift_carry(kind, v) as i8)
    }

    /// Whether BIT / RES / SET can run on its register or (HL).
    #[verifier::opaque]
    pub open spec fn bit_op_ok(self, b: u8) -> bool {
        &&& b < 8
        &&& self.current_instruction.reg2 is Some
        &&& (self.mode() == AddrMode::IMM_R || self.mode() == AddrMode::IMM_RADDR)
        &&& self.target_ok(self.r2(), self.mode() == AddrMode::IMM_RADDR)
    }

    /// The operand of BIT / RES / SET.
    pub open spec fn bit_operand(self) -> u8 {
        self.target(self.r2(), self.mode() == AddrMode::IMM_RADDR)
    }

    /// The CPU after BIT b: Z set when bit `b` of the operand is clear, N
    /// cleared, H set, C kept.
    #[verifier::opaque]
    pub open spec fn after_bit(self, b: u8) -> LR35902CPU {
        self.with_flags(flag_arg((self.bit_operand() >> b) & 1 == 0), 0, 1, -1i8)
    }

    /// The CPU after RES b (`value` false) or SET b: bit `b` of the operand
    /// cleared or set, the other bits and the flags kept.
    #[verifier::opaque]
    pub open spec fn after_res_set(self, b: u8, value: bool) -> LR35902CPU {
        let v = self.bit_operand();
        let mask = (1u8 << b) as u8;
        self.with_target(self.r2(), self.mode() == AddrMode::IMM_RADDR,
            if value { v | mask } else { v & !mask })
    }
}

/// Reads a one-byte operand: register `reg`, or the byte at pair `reg`.
fn read_target(cpu: &LR35902CPU, reg: CPURegisterId, in_mem: bool) -> (r: u8)
    requires
        cpu.wf(),
        cpu.target_ok(reg, in_mem),
    ensures
        r == cpu.target(reg, in_mem),
{
    if in_mem {
        let addr = cpu.get_register16(&reg);
        cpu.read(addr)
    } else {
        cpu.get_register(&reg)
    }
}

/// Sets a one-byte operand.
fn write_target(cpu: &mut LR35902CPU, reg: CPURegisterId, in_mem: bool, v: u8)
    requires
        old(cpu).wf(),
        if in_mem { !is_r8(reg) } else { is_r8(reg) },
    ensures
        final(cpu).wf(),
        *final(cpu) == old(cpu).with_target(reg, in_mem, v),
{
    if in_mem {
        let addr = cpu.get_register16(&reg);
        cpu.write(addr, v);
    } else {
        cpu.set_register(&reg, v as u16);
    }
}

/// A CB rotate / shift / SWAP on its register or (HL).
fn shift(cpu: &mut LR35902CPU, kind: InstrKind) -> (cycles: u8)
    requires
        old(cpu).wf(),
        old(cpu).shift_ok(),
        is_shift(kind),
    ensures
        final(cpu).wf(),
        *final(cpu) == old(cpu).after_shift(kind),
        cycles == old(cpu).shift_cycles(),
{
    proof {
        reveal(LR35902CPU::shift_ok);
        reveal(LR35902CPU::after_shift);
        reveal(LR35902CPU::shift_cycles);
    }
    let instr = cpu.current_instruction;
    let reg = instr.reg1.unwrap();
    let in_mem = matches!(instr.addr_mode, AddrMode::RADDR);
    let cf = cpu.get_flag(FLAG_C);
    let v = read_target(cpu, reg, in_mem);
    let (r, carry) = shift_compute(kind, v, cf);
    write_target(cpu, reg, in_mem, r);
    cpu.set_flags(if r == 0 { 1 } else { 0 }, 0, 0, carry as i8);
    if in_mem { 4 } else { 2 }
}

/// RLCA / RRCA / RLA / RRA: A rotated like its CB counterpart `kind`, Z cleared.
fn rotate_a(cpu: &mut LR35902CPU, kind: InstrKind) -> (cycles: u8)
    requires
        old(cpu).wf(),
        kind == InstrKind::Rlc || kind == InstrKind::Rrc || kind == InstrKind::Rl || kind == InstrKind::Rr,
    ensures
        final(cpu).wf(),
        *final(cpu) == old(cpu).after_rotate_a(kind),
        cycles == 1,
{
    proof {
        reveal(LR35902CPU::after_rotate_a);
    }
    let cf = cpu.get_flag(FLAG_C);
    let v = cpu.get_register(&CPURegisterId::A);
    let (r, carry) = shift_compute(kind, v, cf);
    cpu.set_register(&CPURegisterId::A, r as u16);
    cpu.set_flags(0, 0, 0, carry as i8);
    1
}

/// RLC: rotate left, bit 7 into bit 0 and C.
pub fn rlc(cpu: &mut LR35902CPU) -> (cycles: u8)
    requires
        old(cpu).wf(),
        old(cpu).shift_ok(),
    ensures
        final(cpu).wf(),
        *final(cpu) == old(cpu).after_shift(InstrKind::Rlc),
        cycles == old(cpu).shift_cycles(),
{
    proof {
        reveal(LR35902CPU::shift_ok);
        reveal(LR35902CPU::after_shift);
        reveal(LR35902CPU::shift_cycles);
    }
    shift(cpu, InstrKind::Rlc)
}

/// RRC: rotate right, bit 0 into bit 7 and C.
pub fn rrc(cpu: &mut LR35902CPU) -> (cycles: u8)
    requires
        old(cpu).wf(),
        old(cpu).shift_ok(),
    ensures
        final(cpu).wf(),
        *final(cpu) == old(cpu).after_shift(InstrKind::Rrc),
        cycles == old(cpu).shift_cycles(),
{
    proof {
        reveal(LR35902CPU::shift_ok);
        reveal(LR35902CPU::after_shift);
        reveal(LR35902CPU::shift_cycles);
    }
    shift(cpu, InstrKind::Rrc)
}

/// RL: rotate left through the carry.
pub fn rl(cpu: &mut LR35902CPU) -> (cycles: u8)
    requires
        old(cpu).wf(),
        old(cpu).shift_ok(),
    ensures
        final(cpu).wf(),
        *final(cpu) == old(cpu).after_shift(InstrKind::Rl),
        cycles == old(cpu).shift_cycles(),
{
    proof {
        reveal(LR35902CPU::shift_ok);
        reveal(LR35902CPU::after_shift);
        reveal(LR35902CPU::shift_cycles);
    }
    shift(cpu, InstrKind::Rl)
}

/// RR: rotate right through the carry.
pub fn rr(cpu: &mut LR35902CPU) -> (cycles: u8)
    requires
        old(cpu).wf(),
        old(cpu).shift_ok(),
    ensures
        final(cpu).wf(),
        *final(cpu) == old(cpu).after_shift(InstrKind::Rr),
        cycles == old(cpu).shift_cycles(),
{
    proof {
        reveal(LR35902CPU::shift_ok);
        reveal(LR35902CPU::after_shift);
        reveal(LR35902CPU::shift_cycles);
    }
    shift(cpu, InstrKind::Rr)
}

/// SLA: shift left, bit 7 into C, 0 into bit 0.
pub fn sla(cpu: &mut LR35902CPU) -> (cycles: u8)
    requires
        old(cpu).wf(),
        old(cpu).shift_ok(),
    ensures
        final(cpu).wf(),
        *final(cpu) == old(cpu).after_shift(InstrKind::Sla),
        cycles == old(cpu).shift_cycles(),
{
    proof {
        reveal(LR35902CPU::shift_ok);
        reveal(LR35902CPU::after_shift);
        reveal(LR35902CPU::shift_cycles);
    }
    shift(cpu, InstrKind::Sla)
}

/// SRA: shift right keeping bit 7, bit 0 into C.
pub fn sra(cpu: &mut LR35902CPU) -> (cycles: u8)
    requires
        old(cpu).wf(),
        old(cpu).shift_ok(),
    ensures
        final(cpu).wf(),
        *final(cpu) == old(cpu).after_shift(InstrKind::Sra),
        cycles == old(cpu).shift_cycles(),
{
    proof {
        reveal(LR35902CPU::shift_ok);
        reveal(LR35902CPU::after_shift);
        reveal(LR35902CPU::shift_cycles);
    }
    shift(cpu, InstrKind::Sra)
}

/// SWAP: exchange the two nibbles; C cleared.
pub fn swap(cpu: &mut LR35902CPU) -> (cycles: u8)
    requires
        old(cpu).wf(),
        old(cpu).shift_ok(),
    ensures
        final(cpu).wf(),
        *final(cpu) == old(cpu).after_shift(InstrKind::Swap),
        cycles == old(cpu).shift_cycles(),
{
    proof {
        reveal(LR35902CPU::shift_ok);
        reveal(LR35902CPU::after_shift);
        reveal(LR35902CPU::shift_cycles);
    }
    shift(cpu, InstrKind::Swap)
}

/// SRL: shift right, 0 into bit 7, bit 0 into C.
pub fn srl(cpu: &mut LR35902CPU) -> (cycles: u8)
    requires
        old(cpu).wf(),
        old(cpu).shift_ok(),
    ensures
        final(cpu).wf(),
        *final(cpu) == old(cpu).after_shift(InstrKind::Srl),
        cycles == old(cpu).shift_cycles(),
{
    proof {
        reveal(LR35902CPU::shift_ok);
        reveal(LR35902CPU::after_shift);
        reveal(LR35902CPU::shift_cycles);
    }
    shift(cpu, InstrKind::Srl)
}

/// RLCA.
pub fn rlca(cpu: &mut LR35902CPU) -> (cycles: u8)
    requires
        old(cpu).wf(),
    ensures
        final(cpu).wf(),
        *final(cpu) == old(cpu).after_rotate_a(InstrKind::Rlc),
        cycles == 1,
{
    proof {
        reveal(LR35902CPU::after_rotate_a);
    }
    rotate_a(cpu, InstrKind::Rlc)
}

/// RRCA.
pub fn rrca(cpu: &mut LR35902CPU) -> (cycles: u8)
    requires
        old(cpu).wf(),
    ensures
        final(cpu).wf(),
        *final(cpu) == old(cpu).after_rotate_a(InstrKind::Rrc),
        cycles == 1,
{
    proof {
        reveal(LR35902CPU::after_rotate_a);
    }
    rotate_a(cpu, InstrKind::Rrc)
}

/// RLA.
pub fn rla(cpu: &mut LR35902CPU) -> (cycles: u8)
    requires
        old(cpu).wf(),
    ensures
        final(cpu).wf(),
        *final(cpu) == old(cpu).after_rotate_a(InstrKind::Rl),
        cycles == 1,
{
    proof {
        reveal(LR35902CPU::after_rotate_a);
    }
    rotate_a(cpu, InstrKind::Rl)
}

/// RRA.
pub fn rra(cpu: &mut LR35902CPU) -> (cycles: u8)
    requires
        old(cpu).wf(),
    ensures
        final(cpu).wf(),
        *final(cpu) == old(cpu).after_rotate_a(InstrKind::Rr),
        cycles == 1,
{
    proof {
        reveal(LR35902CPU::after_rotate_a);
    }
    rotate_a(cpu, InstrKind::Rr)
}

/// BIT b: test bit `nth_bit` of a register or (HL).
pub fn bit(cpu: &mut LR35902CPU, nth_bit: u8) -> (cycles: u8)
    requires
        old(cpu).wf(),
        old(cpu).bit_op_ok(nth_bit),
    ensures
        final(cpu).wf(),
        *final(cpu) == old(cpu).after_bit(nth_bit),
        cycles == (if old(cpu).mode() == AddrMode::IMM_RADDR { 3u8 } else { 2u8 }),
{
    proof {
        reveal(LR35902CPU::bit_op_ok);
        reveal(LR35902CPU::after_bit);
    }
    let instr = cpu.current_instruction;
    let in_mem = matches!(instr.addr_mode, AddrMode::IMM_RADDR);
    let value = read_target(cpu, instr.reg2.unwrap(), in_mem);
    let z: i8 = if (value >> nth_bit) & 1 == 0 { 1 } else { 0 };
    cpu.set_flags(z, 0, 1, -1);
    if in_mem { 3 } else { 2 }
}

/// RES b (`value` false) or SET b on a register or (HL).
fn res_set(cpu: &mut LR35902CPU, nth_bit: u8, value: bool) -> (cycles: u8)
    requires
        old(cpu).wf(),
        old(cpu).bit_op_ok(nth_bit),
    ensures
        final(cpu).wf(),
        *final(cpu) == old(cpu).after_res_set(nth_bit, value),
        cycles == (if old(cpu).mode() == AddrMode::IMM_RADDR { 4u8 } else { 2u8 }),
{
    proof {
        reveal(LR35902CPU::bit_op_ok);
        reveal(LR35902CPU::after_res_set);
    }
    let instr = cpu.current_instruction;
    let in_mem = matches!(instr.addr_mode, AddrMode::IMM_RADDR);
    let reg = instr.reg2.unwrap();
    let v = read_target(cpu, reg, in_mem);
    let mask: u8 = 1u8 << nth_bit;
    let r = if value { v | mask } else { v & !mask };
    write_target(cpu, reg, in_mem, r);
    if in_mem { 4 } else { 2 }
}

/// RES b: clear bit `nth_bit` of a register or (HL).
pub fn res(cpu: &mut LR35902CPU, nth_bit: u8) -> (cycles: u8)
    requires
        old(cpu).wf(),
        old(cpu).bit_op_ok(nth_bit),
    ensures
        final(cpu).wf(),
        *final(cpu) == old(cpu).after_res_set(nth_bit, false),
        cycles == (if old(cpu).mode() == AddrMode::IMM_RADDR { 4u8 } else { 2u8 }),
{
    proof {
        reveal(LR35902CPU::bit_op_ok);
        reveal(LR35902CPU::after_res_set);
    }
    res_set(cpu, nth_bit, false)
}

/// SET b: set bit `nth_bit` of a register or (HL).
pub fn set(cpu: &mut LR35902CPU, nth_bit: u8) -> (cycles: u8)
    requires
        old(cpu).wf(),
        old(cpu).bit_op_ok(nth_bit),
    ensures
        final(cpu).wf(),
        *final(cpu) == old(cpu).after_res_set(nth_bit, true),
        cycles == (if old(cpu).mode() == AddrMode::IMM_RADDR { 4u8 } else { 2u8 }),
{
    proof {
        reveal(LR35902CPU::bit_op_ok);
        reveal(LR35902CPU::after_res_set);
    }
    res_set(cpu, nth_bit, true)
}

/// Whether a CB rotate / shift / SWAP can run (see `shift_ok`).
pub fn shift_check(cpu: &LR35902CPU) -> (r: bool)
    requires
        cpu.wf(),
    ensures
        r == cpu.shift_ok(),
{
    proof {
        reveal(LR35902CPU::shift_ok);
    }
    let i = cpu.current_instruction;
    match i.reg1 {
        Some(r1) => match i.addr_mode {
            AddrMode::R => !r1.is_16bit(),
            AddrMode::RADDR => r1.is_16bit() && cpu.readable(cpu.get_register16(&r1)),
            _ => false,
        },
        None => false,
    }
}

/// Whether BIT / RES / SET `b` can run (see `bit_op_ok`).
pub fn bit_op_check(cpu: &LR35902CPU, b: u8) -> (r: bool)
    requires
        cpu.wf(),
    ensures
        r == cpu.bit_op_ok(b),
{
    proof {
        reveal(LR35902CPU::bit_op_ok);
    }
    let i = cpu.current_instruction;
    b < 8 && match i.reg2 {
        Some(r2) => match i.addr_mode {
            AddrMode::IMM_R => !r2.is_16bit(),
            AddrMode::IMM_RADDR => r2.is_16bit() && cpu.readable(cpu.get_register16(&r2)),
            _ => false,
        },
        None => false,
    }
}

/// RR undoes RL and RRC undoes RLC: rotating right through the carry left
/// by a left rotation gives the byte and the carry back.
pub proof fn lemma_rotate_inverse(v: u8, c: u8)
    requires
        c <= 1,
    ensures
        shift_value(InstrKind::Rr, shift_value(InstrKind::Rl, v, c), shift_carry(InstrKind::Rl, v)) == v,
        shift_carry(InstrKind::Rr, shift_value(InstrKind::Rl, v, c)) == c,
        shift_value(InstrKind::Rrc, shift_value(InstrKind::Rlc, v, c), c) == v,
        shift_value(InstrKind::Rl, shift_value(InstrKind::Rr, v, c), shift_carry(InstrKind::Rr, v)) == v,
        shift_carry(InstrKind::Rl, shift_value(InstrKind::Rr, v, c)) == c,
{
    assert(((((v << 1u8) | c) >> 1u8) | ((v >> 7u8) << 7u8)) == v) by { lemma_rotations(v, c); }
    assert((((v << 1u8) | c) & 1) == c) by { lemma_rotations(v, c); }
    assert((((v << 1u8) | (v >> 7u8)) >> 1u8) | ((((v << 1u8) | (v >> 7u8)) & 1) << 7u8) == v) by { lemma_rotations(v, 0); }
    assert(((((v >> 1u8) | (c << 7u8)) << 1u8) | (v & 1)) == v) by { lemma_rotations(v, c); }
    assert((((v >> 1u8) | (c << 7u8)) >> 7u8) == c) by { lemma_rotations(v, c); }
}

/// SWAP twice gives the byte back.
pub proof fn lemma_swap_swap(v: u8, c: u8)
    ensures
        shift_value(InstrKind::Swap, shift_value(InstrKind::Swap, v, c), c) == v,
{
    let w = ((v & 0xf) << 4u8) | ((v & 0xf0) >> 4u8);
    assert(((w & 0xf) << 4u8) | ((w & 0xf0) >> 4u8) == v) by { lemma_bit_ops(v, 0); }
}

/// SET then BIT reports the bit set; RES then BIT reports it clear.
pub proof fn lemma_set_res_bit(v: u8, b: u8)
    requires
        b < 8,
    ensures
        ((v | (1u8 << b)) >> b) & 1 == 1,
        ((v & !(1u8 << b)) >> b) & 1 == 0,
{
    assert(((v | (1u8 << b)) >> b) & 1 == 1) by { lemma_bit_ops(v, b); }
    assert(((v & !(1u8 << b)) >> b) & 1 == 0) by { lemma_bit_ops(v, b); }
}

} // verus!
