use vstd::prelude::*;
use crate::cpu::cpu::LR35902CPU;
use crate::cpu::instructions::{AddrMode, InstrKind};
use crate::cpu::instructions::ld::{sext8, sp_offset, sp_offset_compute};
use crate::cpu::registers::{flag_arg, is_r8, FLAG_C};

verus! {

/// The 8-bit result of an ALU operation on A = `a`, operand `v` and carry `cf`
/// (for CP, A is left as it is).
pub open spec fn alu8_value(kind: InstrKind, a: u8, v: u8, cf: u8) -> u8 {
    match kind {
        InstrKind::Add => ((a + v) % 256) as u8,
        InstrKind::Adc => ((a + v + cf) % 256) as u8,
        InstrKind::Sub => ((a - v + 256) % 256) as u8,
        InstrKind::Sbc => ((a - v - cf + 512) % 256) as u8,
        InstrKind::And => a & v,
        InstrKind::Xor => a ^ v,
        InstrKind::Or => a | v,
        _ => a,
    }
}

/// The Z, N, H and C flags an ALU operation sets.
pub open spec fn alu8_flags(kind: InstrKind, a: u8, v: u8, cf: u8) -> (i8, i8, i8, i8) {
    match kind {
        InstrKind::Add => (
            flag_arg((a + v) % 256 == 0), 0, flag_arg(a % 16 + v % 16 > 15), flag_arg(a + v > 255),
        ),
        InstrKind::Adc => (
            flag_arg((a + v + cf) % 256 == 0), 0, flag_arg(a % 16 + v % 16 + cf > 15),
            flag_arg(a + v + cf > 255),
        ),
        InstrKind::Sub => (flag_arg(a == v), 1, flag_arg(a % 16 < v % 16), flag_arg(a < v)),
        InstrKind::Sbc => (
            flag_arg((a - v - cf + 512) % 256 == 0), 1, flag_arg(a % 16 - v % 16 - cf < 0),
            flag_arg(a - v - cf < 0),
        ),
        InstrKind::And => (flag_arg(a & v == 0), 0, 1, 0),
        InstrKind::Xor => (flag_arg(a ^ v == 0), 0, 0, 0),
        InstrKind::Or => (flag_arg(a | v == 0), 0, 0, 0),
        _ => (flag_arg(a == v), 1, flag_arg(a % 16 < v % 16), flag_arg(a < v)),
    }
}

/// Whether `kind` is one of the eight A, operand operations.
pub open spec fn is_alu8(kind: InstrKind) -> bool {
    match kind {
        InstrKind::Add | InstrKind::Adc | InstrKind::Sub | InstrKind::Sbc | InstrKind::And
        | InstrKind::Xor | InstrKind::Or | InstrKind::Cp => true,
        _ => false,
    }
}

fn alu8_compute(kind: InstrKind, a: u8, v: u8, cf: u8) -> (r: (u8, i8, i8, i8, i8))
    requires
        is_alu8(kind),
        cf <= 1,
    ensures
        r.0 == alu8_value(kind, a, v, cf),
        (r.1, r.2, r.3, r.4) == alu8_flags(kind, a, v, cf),
{
    let a32 = a as u32;
    let v32 = v as u32;
    let c32 = cf as u32;
    match kind {
        InstrKind::Add => {
            let value = ((a32 + v32) % 256) as u8;
            (value, bit(value == 0), 0, bit(a32 % 16 + v32 % 16 > 15), bit(a32 + v32 > 255))
        },
        InstrKind::Adc => {
            let value = ((a32 + v32 + c32) % 256) as u8;
            (
                value,
                bit(value == 0),
                0,
                bit(a32 % 16 + v32 % 16 + c32 > 15),
                bit(a32 + v32 + c32 > 255),
            )
        },
        InstrKind::Sub => {
            let value = ((a32 + 256 - v32) % 256) as u8;
            (value, bit(a == v), 1, bit(a32 % 16 < v32 % 16), bit(a < v))
        },
        InstrKind::Sbc => {
            let value = ((a32 + 512 - v32 - c32) % 256) as u8;
            (value, bit(value == 0), 1, bit(a32 % 16 < v32 % 16 + c32), bit(a32 < v32 + c32))
        },
        InstrKind::And => {
            let value = a & v;
            (value, bit(value == 0), 0, 1, 0)
        },
        InstrKind::Xor => {
            let value = a ^ v;
            (value, bit(value == 0), 0, 0, 0)
        },
        InstrKind::Or => {
            let value = a | v;
            (value, bit(value == 0), 0, 0, 0)
        },
        _ => (a, bit(a == v), 1, bit(a32 % 16 < v32 % 16), bit(a < v)),
    }
}

/// A flag argument that sets the flag when `b` holds and clears it otherwise.
fn bit(b: bool) -> (r: i8)
    ensures
        r == flag_arg(b),
{
    if b { 1 } else { 0 }
}

impl LR35902CPU {
    /// Whether the current instruction has the operand shape of an 8-bit ALU
    /// operation (A in reg1; a register, (register pair) or immediate operand)
    /// and the operand can be read.
    pub open spec fn operand8_ok(self) -> bool {
        &&& self.current_instruction.reg1 is Some
        &&& is_r8(self.r1())
        &&& match self.mode() {
            AddrMode::R_R => self.current_instruction.reg2 is Some && is_r8(self.r2()),
            AddrMode::R_RADDR => self.current_instruction.reg2 is Some && !is_r8(self.r2())
                && self.can_read(self.registers.reg16(self.r2())),
            AddrMode::R_IMM => self.can_fetch8(),
            _ => false,
        }
    }

    /// The operand of an 8-bit ALU operation.
    pub open spec fn operand8(self) -> u8 {
        match self.mode() {
            AddrMode::R_R => self.registers.reg8(self.r2()),
            AddrMode::R_RADDR => self.mem(self.registers.reg16(self.r2())),
            _ => self.mem(self.registers.pc),
        }
    }

    /// The CPU after the operand is fetched (past the immediate byte).
    pub open spec fn after_operand8(self) -> LR35902CPU {
        if self.mode() == AddrMode::R_IMM { self.with_pc((self.registers.pc + 1) as u16) } else { self }
    }

    /// M-cycles of an 8-bit ALU operation.
    #[verifier::opaque]
    pub open spec fn operand8_cycles(self) -> u8 {
        if self.mode() == AddrMode::R_R { 1 } else { 2 }
    }

    /// The CPU after the 8-bit ALU operation `kind` on reg1 and the operand.
    #[verifier::opaque]
    pub open spec fn after_alu8(self, kind: InstrKind) -> LR35902CPU {
        let c = self.after_operand8();
        let a = self.registers.reg8(self.r1());
        let v = self.operand8();
        let cf = self.registers.flag(FLAG_C);
        let (z, n, h, cy) = alu8_flags(kind, a, v, cf);
        let regs = if kind == InstrKind::Cp {
            c.registers
        } else {
            c.registers.with_reg(self.r1(), alu8_value(kind, a, v, cf) as u16)
        };
        c.with_regs(regs.with_flags(z, n, h, cy))
    }
}

/// Reads the operand of an 8-bit ALU operation.
fn fetch_operand8(cpu: &mut LR35902CPU) -> (r: (u8, u8))
    requires
        old(cpu).wf(),
        old(cpu).operand8_ok(),
    ensures
        final(cpu).wf(),
        r.0 == old(cpu).operand8(),
        r.1 == old(cpu).operand8_cycles(),
        *final(cpu) == old(cpu).after_operand8(),
{
    proof {
        reveal(LR35902CPU::operand8_cycles);
    }
    let instr = cpu.current_instruction;
    match instr.addr_mode {
        AddrMode::R_R => (cpu.get_register(instr.reg2.as_ref().unwrap()), 1),
        AddrMode::R_RADDR => {
            let addr = cpu.get_register16(instr.reg2.as_ref().unwrap());
            (cpu.read(addr), 2)
        },
        _ => {
            let v = cpu.read(cpu.pc());
            cpu.inc_pc(1);
            (v, 2)
        },
    }
}

/// The 8-bit ALU operation `kind`: A (reg1) combined with the operand; the
/// result is stored (but for CP) and the flags set.
fn alu8(cpu: &mut LR35902CPU, kind: InstrKind) -> (cycles: u8)
    requires
        old(cpu).wf(),
        old(cpu).operand8_ok(),
        is_alu8(kind),
    ensures
        final(cpu).wf(),
        *final(cpu) == old(cpu).after_alu8(kind),
        cycles == old(cpu).operand8_cycles(),
{
    proof {
        reveal(LR35902CPU::operand8_cycles);
        reveal(LR35902CPU::after_alu8);
    }
    let instr = cpu.current_instruction;
    let reg1 = instr.reg1.unwrap();
    let a = cpu.get_register(&reg1);
    let cf = cpu.get_flag(FLAG_C);
    let (v, cycles) = fetch_operand8(cpu);
    let (result, z, n, h, c) = alu8_compute(kind, a, v, cf);
    if !matches!(kind, InstrKind::Cp) {
        cpu.set_register(&reg1, result as u16);
    }
    cpu.set_flags(z, n, h, c);
    cycles
}

/// ADC A, operand.
pub fn adc(cpu: &mut LR35902CPU) -> (cycles: u8)
    requires
        old(cpu).wf(),
        old(cpu).operand8_ok(),
    ensures
        final(cpu).wf(),
        *final(cpu) == old(cpu).after_alu8(InstrKind::Adc),
        cycles == old(cpu).operand8_cycles(),
{
    proof {
        reveal(LR35902CPU::operand8_cycles);
        reveal(LR35902CPU::after_alu8);
    }
    alu8(cpu, InstrKind::Adc)
}

/// SUB A, operand.
pub fn sub(cpu: &mut LR35902CPU) -> (cycles: u8)
    requires
        old(cpu).wf(),
        old(cpu).operand8_ok(),
    ensures
        final(cpu).wf(),
        *final(cpu) == old(cpu).after_alu8(InstrKind::Sub),
        cycles == old(cpu).operand8_cycles(),
{
    proof {
        reveal(LR35902CPU::operand8_cycles);
        reveal(LR35902CPU::after_alu8);
    }
    alu8(cpu, InstrKind::Sub)
}

/// SBC A, operand.
pub fn sbc(cpu: &mut LR35902CPU) -> (cycles: u8)
    requires
        old(cpu).wf(),
        old(cpu).operand8_ok(),
    ensures
        final(cpu).wf(),
        *final(cpu) == old(cpu).after_alu8(InstrKind::Sbc),
        cycles == old(cpu).operand8_cycles(),
{
    proof {
        reveal(LR35902CPU::operand8_cycles);
        reveal(LR35902CPU::after_alu8);
    }
    alu8(cpu, InstrKind::Sbc)
}

/// AND A, operand.
pub fn and(cpu: &mut LR35902CPU) -> (cycles: u8)
    requires
        old(cpu).wf(),
        old(cpu).operand8_ok(),
    ensures
        final(cpu).wf(),
        *final(cpu) == old(cpu).after_alu8(InstrKind::And),
        cycles == old(cpu).operand8_cycles(),
{
    proof {
        reveal(LR35902CPU::operand8_cycles);
        reveal(LR35902CPU::after_alu8);
    }
    alu8(cpu, InstrKind::And)
}

/// OR A, operand.
pub fn or(cpu: &mut LR35902CPU) -> (cycles: u8)
    requires
        old(cpu).wf(),
        old(cpu).operand8_ok(),
    ensures
        final(cpu).wf(),
        *final(cpu) == old(cpu).after_alu8(InstrKind::Or),
        cycles == old(cpu).operand8_cycles(),
{
    proof {
        reveal(LR35902CPU::operand8_cycles);
        reveal(LR35902CPU::after_alu8);
    }
    alu8(cpu, InstrKind::Or)
}

/// XOR A, operand.
pub fn xor(cpu: &mut LR35902CPU) -> (cycles: u8)
    requires
        old(cpu).wf(),
        old(cpu).operand8_ok(),
    ensures
        final(cpu).wf(),
        *final(cpu) == old(cpu).after_alu8(InstrKind::Xor),
        cycles == old(cpu).operand8_cycles(),
{
    proof {
        reveal(LR35902CPU::operand8_cycles);
        reveal(LR35902CPU::after_alu8);
    }
    alu8(cpu, InstrKind::Xor)
}

/// CP A, operand: the flags of A - operand, A unchanged.
pub fn cp(cpu: &mut LR35902CPU) -> (cycles: u8)
    requires
        old(cpu).wf(),
        old(cpu).operand8_ok(),
    ensures
        final(cpu).wf(),
        *final(cpu) == old(cpu).after_alu8(InstrKind::Cp),
        cycles == old(cpu).operand8_cycles(),
{
    proof {
        reveal(LR35902CPU::operand8_cycles);
        reveal(LR35902CPU::after_alu8);
    }
    alu8(cpu, InstrKind::Cp)
}

impl LR35902CPU {
    /// Whether the current ADD has a 16-bit destination.
    pub open spec fn is_add16(self) -> bool {
        self.mode() == AddrMode::R16_R16 || self.mode() == AddrMode::R16_IMM16
            || self.mode() == AddrMode::R16_SIMM
    }

    /// Whether ADD can run.
    #[verifier::opaque]
    pub open spec fn add_ok(self) -> bool {
        if self.is_add16() {
            &&& self.current_instruction.reg1 is Some
            &&& !is_r8(self.r1())
            &&& match self.mode() {
                AddrMode::R16_R16 => self.current_instruction.reg2 is Some && !is_r8(self.r2()),
                AddrMode::R16_IMM16 => self.can_fetch16(),
                _ => self.can_fetch8(),
            }
        } else {
            self.operand8_ok()
        }
    }

    /// The 16-bit operand of ADD rr, src (a register pair or an immediate word).
    pub open spec fn add16_operand(self) -> u16 {
        if self.mode() == AddrMode::R16_R16 { self.registers.reg16(self.r2()) } else { self.imm16() }
    }

    /// The CPU after ADD.
    #[verifier::opaque]
    pub open spec fn after_add(self) -> LR35902CPU {
        if !self.is_add16() {
            self.after_alu8(InstrKind::Add)
        } else {
            let a = self.registers.reg16(self.r1());
            if self.mode() == AddrMode::R16_SIMM {
                let (v, h, c) = sp_offset(a, self.imm8());
                self.adv(1).with_reg(self.r1(), v).with_flags(0, 0, flag_arg(h), flag_arg(c))
            } else {
                let b = self.add16_operand();
                let fetched = if self.mode() == AddrMode::R16_IMM16 { self.adv(2) } else { self };
                fetched.with_reg(self.r1(), ((a + b) % 0x10000) as u16).with_flags(
                    -1i8, 0, flag_arg(a % 0x1000 + b % 0x1000 > 0xfff), flag_arg(a + b > 0xffff))
            }
        }
    }

    #[verifier::opaque]
    pub open spec fn add_cycles(self) -> u8 {
        match self.mode() {
            AddrMode::R16_R16 => 2,
            AddrMode::R16_IMM16 => 3,
            AddrMode::R16_SIMM => 4,
            _ => self.operand8_cycles(),
        }
    }

    /// Whether INC / DEC can run on its register, (HL) or register pair.
    #[verifier::opaque]
    pub open spec fn incdec_ok(self) -> bool {
        &&& self.current_instruction.reg1 is Some
        &&& match self.mode() {
            AddrMode::R => is_r8(self.r1()),
            AddrMode::RADDR => !is_r8(self.r1()) && self.can_read(self.registers.reg16(self.r1())),
            AddrMode::R16 => !is_r8(self.r1()),
            _ => false,
        }
    }

    /// The CPU after INC (`inc`) or DEC: 8-bit forms set Z, N and H and keep C;
    /// the 16-bit form sets no flag.
    #[verifier::opaque]
    pub open spec fn after_incdec(self, inc: bool) -> LR35902CPU {
        let r1 = self.r1();
        match self.mode() {
            AddrMode::R16 => {
                let v = self.registers.reg16(r1);
                self.with_reg(r1, (if inc { (v + 1) % 0x10000 } else { (v + 0xffff) % 0x10000 }) as u16)
            },
            _ => {
                let in_mem = self.mode() == AddrMode::RADDR;
                let v = if in_mem { self.mem(self.registers.reg16(r1)) } else { self.registers.reg8(r1) };
                let r = (if inc { (v + 1) % 256 } else { (v + 255) % 256 }) as u8;
                let h = if inc { r % 16 == 0 } else { r % 16 == 15 };
                let written = if in_mem {
                    self.with_write(self.registers.reg16(r1), r)
                } else {
                    self.with_reg(r1, r as u16)
                };
                written.with_flags(flag_arg(r == 0), if inc { 0 } else { 1 }, flag_arg(h), -1i8)
            },
        }
    }

    #[verifier::opaque]
    pub open spec fn incdec_cycles(self) -> u8 {
        match self.mode() {
            AddrMode::R => 1,
            AddrMode::RADDR => 3,
            _ => 2,
        }
    }
}

/// ADD rr, src: 16-bit add, Z kept, H from bit 11, C from bit 15.
fn add16(cpu: &mut LR35902CPU)
    requires
        old(cpu).wf(),
        old(cpu).add_ok(),
        old(cpu).is_add16(),
        old(cpu).mode() != AddrMode::R16_SIMM,
    ensures
        final(cpu).wf(),
        *final(cpu) == old(cpu).after_add(),
{
    proof {
        reveal(LR35902CPU::after_alu8);
        reveal(LR35902CPU::add_ok);
        reveal(LR35902CPU::after_add);
    }
    let instr = cpu.current_instruction;
    let reg1 = instr.reg1.unwrap();
    let op1 = cpu.get_register16(&reg1) as u32;
    let op2 = if matches!(instr.addr_mode, AddrMode::R16_R16) {
        cpu.get_register16(instr.reg2.as_ref().unwrap()) as u32
    } else {
        cpu.fetch16() as u32
    };
    let result = op1 + op2;
    cpu.set_register(&reg1, (result % 0x10000) as u16);
    cpu.set_flags(
        -1,
        0,
        bit(op1 % 0x1000 + op2 % 0x1000 > 0xfff),
        bit(result > 0xffff),
    );
}

/// ADD SP, e8: SP plus a signed immediate; Z and N cleared, H and C from the
/// low byte.
fn add_sp(cpu: &mut LR35902CPU)
    requires
        old(cpu).wf(),
        old(cpu).add_ok(),
        old(cpu).mode() == AddrMode::R16_SIMM,
    ensures
        final(cpu).wf(),
        *final(cpu) == old(cpu).after_add(),
{
    proof {
        reveal(LR35902CPU::after_alu8);
        reveal(LR35902CPU::add_ok);
        reveal(LR35902CPU::after_add);
    }
    let instr = cpu.current_instruction;
    let reg1 = instr.reg1.unwrap();
    let op1 = cpu.get_register16(&reg1);
    let op2 = cpu.fetch8();
    let (result, h, c) = sp_offset_compute(op1, op2);
    cpu.set_register(&reg1, result);
    cpu.set_flags(0, 0, bit(h), bit(c));
}

/// ADD: A plus a register, (HL) or an immediate; or a 16-bit add into HL or SP.
pub fn add(cpu: &mut LR35902CPU) -> (cycles: u8)
    requires
        old(cpu).wf(),
        old(cpu).add_ok(),
    ensures
        final(cpu).wf(),
        *final(cpu) == old(cpu).after_add(),
        cycles == old(cpu).add_cycles(),
{
    proof {
        reveal(LR35902CPU::operand8_cycles);
        reveal(LR35902CPU::after_alu8);
        reveal(LR35902CPU::add_ok);
        reveal(LR35902CPU::after_add);
        reveal(LR35902CPU::add_cycles);
    }
    match cpu.current_instruction.addr_mode {
        AddrMode::R16_R16 => {
            add16(cpu);
            2
        },
        AddrMode::R16_IMM16 => {
            add16(cpu);
            3
        },
        AddrMode::R16_SIMM => {
            add_sp(cpu);
            4
        },
        _ => alu8(cpu, InstrKind::Add),
    }
}

/// INC (`inc`) or DEC on an 8-bit register, (HL) or a register pair.
fn incdec(cpu: &mut LR35902CPU, inc: bool) -> (cycles: u8)
    requires
        old(cpu).wf(),
        old(cpu).incdec_ok(),
    ensures
        final(cpu).wf(),
        *final(cpu) == old(cpu).after_incdec(inc),
        cycles == old(cpu).incdec_cycles(),
{
    proof {
        reveal(LR35902CPU::incdec_ok);
        reveal(LR35902CPU::after_incdec);
        reveal(LR35902CPU::incdec_cycles);
    }
    let instr = cpu.current_instruction;
    let reg1 = instr.reg1.unwrap();
    match instr.addr_mode {
        AddrMode::R16 => {
            let v = cpu.get_register16(&reg1) as u32;
            let r = if inc { (v + 1) % 0x10000 } else { (v + 0xffff) % 0x10000 };
            cpu.set_register(&reg1, r as u16);
            2
        },
        _ => {
            let in_mem = matches!(instr.addr_mode, AddrMode::RADDR);
            let v = if in_mem {
                let addr = cpu.get_register16(&reg1);
                cpu.read(addr)
            } else {
                cpu.get_register(&reg1)
            } as u32;
            let r = (if inc { (v + 1) % 256 } else { (v + 255) % 256 }) as u8;
            let h = if inc { r % 16 == 0 } else { r % 16 == 15 };
            if in_mem {
                let addr = cpu.get_register16(&reg1);
                cpu.write(addr, r);
            } else {
                cpu.set_register(&reg1, r as u16);
            }
            cpu.set_flags(bit(r == 0), if inc { 0 } else { 1 }, bit(h), -1);
            if in_mem { 3 } else { 1 }
        },
    }
}

/// INC: +1 on a register, (HL) or a register pair (Z, N, H set for 8 bits).
pub fn inc(cpu: &mut LR35902CPU) -> (cycles: u8)
    requires
        old(cpu).wf(),
        old(cpu).incdec_ok(),
    ensures
        final(cpu).wf(),
        *final(cpu) == old(cpu).after_incdec(true),
        cycles == old(cpu).incdec_cycles(),
{
    proof {
        reveal(LR35902CPU::incdec_ok);
        reveal(LR35902CPU::after_incdec);
        reveal(LR35902CPU::incdec_cycles);
    }
    incdec(cpu, true)
}

/// DEC: -1 on a register, (HL) or a register pair (Z, N, H set for 8 bits).
pub fn dec(cpu: &mut LR35902CPU) -> (cycles: u8)
    requires
        old(cpu).wf(),
        old(cpu).incdec_ok(),
    ensures
        final(cpu).wf(),
        *final(cpu) == old(cpu).after_incdec(false),
        cycles == old(cpu).incdec_cycles(),
{
    proof {
        reveal(LR35902CPU::incdec_ok);
        reveal(LR35902CPU::after_incdec);
        reveal(LR35902CPU::incdec_cycles);
    }
    incdec(cpu, false)
}

/// Whether an 8-bit ALU operation can run (see `operand8_ok`).
pub fn operand8_check(cpu: &LR35902CPU) -> (r: bool)
    requires
        cpu.wf(),
    ensures
        r == cpu.operand8_ok(),
{
    let i = cpu.current_instruction;
    match i.reg1 {
        Some(r1) => !r1.is_16bit() && match i.addr_mode {
            AddrMode::R_R => match i.reg2 {
                Some(r2) => !r2.is_16bit(),
                None => false,
            },
            AddrMode::R_RADDR => match i.reg2 {
                Some(r2) => r2.is_16bit() && cpu.readable(cpu.get_register16(&r2)),
                None => false,
            },
            AddrMode::R_IMM => cpu.fetchable8(),
            _ => false,
        },
        None => false,
    }
}

/// Whether ADD can run (see `add_ok`).
pub fn add_check(cpu: &LR35902CPU) -> (r: bool)
    requires
        cpu.wf(),
    ensures
        r == cpu.add_ok(),
{
    proof {
        reveal(LR35902CPU::add_ok);
    }
    let i = cpu.current_instruction;
    match i.addr_mode {
        AddrMode::R16_R16 | AddrMode::R16_IMM16 | AddrMode::R16_SIMM => match i.reg1 {
            Some(r1) => r1.is_16bit() && match i.addr_mode {
                AddrMode::R16_R16 => match i.reg2 {
                    Some(r2) => r2.is_16bit(),
                    None => false,
                },
                AddrMode::R16_IMM16 => cpu.fetchable16(),
                _ => cpu.fetchable8(),
            },
            None => false,
        },
        _ => operand8_check(cpu),
    }
}

/// Whether INC / DEC can run (see `incdec_ok`).
pub fn incdec_check(cpu: &LR35902CPU) -> (r: bool)
    requires
        cpu.wf(),
    ensures
        r == cpu.incdec_ok(),
{
    proof {
        reveal(LR35902CPU::incdec_ok);
    }
    let i = cpu.current_instruction;
    match i.reg1 {
        Some(r1) => match i.addr_mode {
            AddrMode::R => !r1.is_16bit(),
            AddrMode::RADDR => r1.is_16bit() && cpu.readable(cpu.get_register16(&r1)),
            AddrMode::R16 => r1.is_16bit(),
            _ => false,
        },
        None => false,
    }
}

/// SUB undoes ADD: subtracting from A the operand just added gives A back
/// (whatever the carry flag).
pub proof fn lemma_add_sub(a: u8, v: u8, c1: u8, c2: u8)
    ensures
        alu8_value(InstrKind::Sub, alu8_value(InstrKind::Add, a, v, c1), v, c2) == a,
        alu8_value(InstrKind::Add, alu8_value(InstrKind::Sub, a, v, c1), v, c2) == a,
{
}

/// A value minus itself is zero, with Z and N set and H and C clear; CP
/// reports the same flags.
pub proof fn lemma_sub_self(a: u8, c: u8)
    ensures
        alu8_value(InstrKind::Sub, a, a, c) == 0,
        alu8_flags(InstrKind::Sub, a, a, c) == (1i8, 1i8, 0i8, 0i8),
        alu8_flags(InstrKind::Cp, a, a, c) == (1i8, 1i8, 0i8, 0i8),
        alu8_value(InstrKind::Cp, a, a, c) == a,
{
}

} // verus!
