pub mod arithmetic;
pub mod ld;
pub mod bit;
pub mod control;
pub mod misc;
pub mod stack;
pub mod execute;

use vstd::prelude::*;
use crate::cpu::registers::CPURegisterId;

verus! {

/// Operand layout of an instruction.
#[allow(non_camel_case_types)]
#[derive(Clone, Copy, Debug, PartialEq, Eq, Structural)]
pub enum AddrMode {
    R,
    R_R,
    R_IMM,
    R_RADDR,
    R_IMMADDR,
    RADDR,
    RADDR_R,
    RADDR_IMM,
    R16,
    R16_R16,
    R16_SIMM,
    R16_IMM16,
    R16_R16_IMM,
    IMM_R,
    IMMADDR,
    IMM_RADDR,
    IMMADDR_R,
    IMMADDR_R16,
    SIMM,
}

/// Branch condition.
#[derive(Clone, Copy, Debug, PartialEq, Eq, Structural)]
pub enum CondType {
    Nz,
    Z,
    Nc,
    C,
}

/// The operation an instruction performs.
#[derive(Clone, Copy, Debug, PartialEq, Eq, Structural)]
pub enum InstrKind {
    Nop,
    Ldr,
    Ldm,
    Ldh,
    Ldi,
    Ldd,
    Inc,
    Dec,
    Add,
    Adc,
    Sub,
    Sbc,
    And,
    Xor,
    Or,
    Cp,
    Rlca,
    Rrca,
    Rla,
    Rra,
    Daa,
    Cpl,
    Scf,
    Ccf,
    Halt,
    Stop,
    Jr,
    Jp,
    Call,
    Ret,
    Reti,
    Rst(u8),
    Push,
    Pop,
    Di,
    Ei,
    Rlc,
    Rrc,
    Rl,
    Rr,
    Sla,
    Sra,
    Swap,
    Srl,
    Bit(u8),
    ResBit(u8),
    SetBit(u8),
}

/// One decoded instruction.
#[derive(Clone, Copy, Debug)]
pub struct Instruction {
    pub name: &'static str,
    pub addr_mode: AddrMode,
    pub kind: InstrKind,
    pub condition: Option<CondType>,
    pub reg1: Option<CPURegisterId>,
    pub reg2: Option<CPURegisterId>,
}

/// Operand register number `i` of the regular opcode blocks: B, C, D, E, H, L,
/// (HL), A; `None` stands for (HL).
pub open spec fn r8_index(i: int) -> Option<CPURegisterId> {
    if i == 0 { Some(CPURegisterId::B) }
    else if i == 1 { Some(CPURegisterId::C) }
    else if i == 2 { Some(CPURegisterId::D) }
    else if i == 3 { Some(CPURegisterId::E) }
    else if i == 4 { Some(CPURegisterId::H) }
    else if i == 5 { Some(CPURegisterId::L) }
    else if i == 6 { None }
    else { Some(CPURegisterId::A) }
}

fn r8_of(i: u16) -> (r: Option<CPURegisterId>)
    requires
        i < 8,
    ensures
        r == r8_index(i as int),
{
    if i == 0 { Some(CPURegisterId::B) }
    else if i == 1 { Some(CPURegisterId::C) }
    else if i == 2 { Some(CPURegisterId::D) }
    else if i == 3 { Some(CPURegisterId::E) }
    else if i == 4 { Some(CPURegisterId::H) }
    else if i == 5 { Some(CPURegisterId::L) }
    else if i == 6 { None }
    else { Some(CPURegisterId::A) }
}

/// LD r, r' (0x40-0x7F but 0x76).
pub open spec fn ld_block(op: int) -> Instruction {
    let dst = r8_index((op / 8) % 8);
    let src = r8_index(op % 8);
    if dst is None {
        Instruction { name: "LD", addr_mode: AddrMode::RADDR_R, kind: InstrKind::Ldm, condition: None,
            reg1: Some(CPURegisterId::HL), reg2: src }
    } else if src is None {
        Instruction { name: "LD", addr_mode: AddrMode::R_RADDR, kind: InstrKind::Ldr, condition: None,
            reg1: dst, reg2: Some(CPURegisterId::HL) }
    } else {
        Instruction { name: "LD", addr_mode: AddrMode::R_R, kind: InstrKind::Ldr, condition: None,
            reg1: dst, reg2: src }
    }
}

/// The name and operation of ALU group `g` (0x80-0xBF).
pub open spec fn alu_op(g: int) -> (&'static str, InstrKind) {
    if g == 0 { ("ADD", InstrKind::Add) }
    else if g == 1 { ("ADC", InstrKind::Adc) }
    else if g == 2 { ("SUB", InstrKind::Sub) }
    else if g == 3 { ("SBC", InstrKind::Sbc) }
    else if g == 4 { ("AND", InstrKind::And) }
    else if g == 5 { ("XOR", InstrKind::Xor) }
    else if g == 6 { ("OR", InstrKind::Or) }
    else { ("CP", InstrKind::Cp) }
}

/// A, r ALU operations (0x80-0xBF).
pub open spec fn alu_block(op: int) -> Instruction {
    let (name, kind) = alu_op((op / 8) % 8);
    let src = r8_index(op % 8);
    if src is None {
        Instruction { name, addr_mode: AddrMode::R_RADDR, kind, condition: None,
            reg1: Some(CPURegisterId::A), reg2: Some(CPURegisterId::HL) }
    } else {
        Instruction { name, addr_mode: AddrMode::R_R, kind, condition: None,
            reg1: Some(CPURegisterId::A), reg2: src }
    }
}

/// The name and operation of shift group `g` of the CB-prefixed opcodes.
pub open spec fn shift_op(g: int) -> (&'static str, InstrKind) {
    if g == 0 { ("RLC", InstrKind::Rlc) }
    else if g == 1 { ("RRC", InstrKind::Rrc) }
    else if g == 2 { ("RL", InstrKind::Rl) }
    else if g == 3 { ("RR", InstrKind::Rr) }
    else if g == 4 { ("SLA", InstrKind::Sla) }
    else if g == 5 { ("SRA", InstrKind::Sra) }
    else if g == 6 { ("SWAP", InstrKind::Swap) }
    else { ("SRL", InstrKind::Srl) }
}

/// A CB-prefixed instruction (`cb` is the byte after 0xCB).
pub open spec fn cb_block(cb: int) -> Instruction {
    let r = r8_index(cb % 8);
    let group = cb / 64;
    let b = ((cb / 8) % 8) as u8;
    if group == 0 {
        let (name, kind) = shift_op((cb / 8) % 8);
        if r is None {
            Instruction { name, addr_mode: AddrMode::RADDR, kind, condition: None,
                reg1: Some(CPURegisterId::HL), reg2: None }
        } else {
            Instruction { name, addr_mode: AddrMode::R, kind, condition: None, reg1: r, reg2: None }
        }
    } else {
        let (name, kind) = if group == 1 {
            ("BIT", InstrKind::Bit(b))
        } else if group == 2 {
            ("RES", InstrKind::ResBit(b))
        } else {
            ("SET", InstrKind::SetBit(b))
        };
        if r is None {
            Instruction { name, addr_mode: AddrMode::IMM_RADDR, kind, condition: None,
                reg1: None, reg2: Some(CPURegisterId::HL) }
        } else {
            Instruction { name, addr_mode: AddrMode::IMM_R, kind, condition: None, reg1: None, reg2: r }
        }
    }
}

/// The remaining single-byte opcodes.
pub open spec fn base_table(op: u16) -> Option<Instruction> {
    match op {
        0x00 => Some(Instruction { name: "NOP", addr_mode: AddrMode::R_R, kind: InstrKind::Nop, condition: None, reg1: None, reg2: None }),
        0x01 => Some(Instruction { name: "LD", addr_mode: AddrMode::R16_IMM16, kind: InstrKind::Ldr, condition: None, reg1: Some(CPURegisterId::BC), reg2: None }),
        0x02 => Some(Instruction { name: "LD", addr_mode: AddrMode::RADDR_R, kind: InstrKind::Ldm, condition: None, reg1: Some(CPURegisterId::BC), reg2: Some(CPURegisterId::A) }),
        0x03 => Some(Instruction { name: "INC", addr_mode: AddrMode::R16, kind: InstrKind::Inc, condition: None, reg1: Some(CPURegisterId::BC), reg2: None }),
        0x04 => Some(Instruction { name: "INC", addr_mode: AddrMode::R, kind: InstrKind::Inc, condition: None, reg1: Some(CPURegisterId::B), reg2: None }),
        0x05 => Some(Instruction { name: "DEC", addr_mode: AddrMode::R, kind: InstrKind::Dec, condition: None, reg1: Some(CPURegisterId::B), reg2: None }),
        0x06 => Some(Instruction { name: "LD", addr_mode: AddrMode::R_IMM, kind: InstrKind::Ldr, condition: None, reg1: Some(CPURegisterId::B), reg2: None }),
        0x07 => Some(Instruction { name: "RLCA", addr_mode: AddrMode::R, kind: InstrKind::Rlca, condition: None, reg1: None, reg2: None }),
        0x08 => Some(Instruction { name: "LD", addr_mode: AddrMode::IMMADDR_R16, kind: InstrKind::Ldm, condition: None, reg1: None, reg2: Some(CPURegisterId::SP) }),
        0x09 => Some(Instruction { name: "ADD", addr_mode: AddrMode::R16_R16, kind: InstrKind::Add, condition: None, reg1: Some(CPURegisterId::HL), reg2: Some(CPURegisterId::BC) }),
        0x0a => Some(Instruction { name: "LD", addr_mode: AddrMode::R_RADDR, kind: InstrKind::Ldr, condition: None, reg1: Some(CPURegisterId::A), reg2: Some(CPURegisterId::BC) }),
        0x0b => Some(Instruction { name: "DEC", addr_mode: AddrMode::R16, kind: InstrKind::Dec, condition: None, reg1: Some(CPURegisterId::BC), reg2: None }),
        0x0c => Some(Instruction { name: "INC", addr_mode: AddrMode::R, kind: InstrKind::Inc, condition: None, reg1: Some(CPURegisterId::C), reg2: None }),
        0x0d => Some(Instruction { name: "DEC", addr_mode: AddrMode::R, kind: InstrKind::Dec, condition: None, reg1: Some(CPURegisterId::C), reg2: None }),
        0x0e => Some(Instruction { name: "LD", addr_mode: AddrMode::R_IMM, kind: InstrKind::Ldr, condition: None, reg1: Some(CPURegisterId::C), reg2: None }),
        0x0f => Some(Instruction { name: "RRCA", addr_mode: AddrMode::R, kind: InstrKind::Rrca, condition: None, reg1: None, reg2: None }),
        0x10 => Some(Instruction { name: "STOP", addr_mode: AddrMode::R, kind: InstrKind::Stop, condition: None, reg1: None, reg2: None }),
        0x11 => Some(Instruction { name: "LD", addr_mode: AddrMode::R16_IMM16, kind: InstrKind::Ldr, condition: None, reg1: Some(CPURegisterId::DE), reg2: None }),
        0x12 => Some(Instruction { name: "LD", addr_mode: AddrMode::RADDR_R, kind: InstrKind::Ldm, condition: None, reg1: Some(CPURegisterId::DE), reg2: Some(CPURegisterId::A) }),
        0x13 => Some(Instruction { name: "INC", addr_mode: AddrMode::R16, kind: InstrKind::Inc, condition: None, reg1: Some(CPURegisterId::DE), reg2: None }),
        0x14 => Some(Instruction { name: "INC", addr_mode: AddrMode::R, kind: InstrKind::Inc, condition: None, reg1: Some(CPURegisterId::D), reg2: None }),
        0x15 => Some(Instruction { name: "DEC", addr_mode: AddrMode::R, kind: InstrKind::Dec, condition: None, reg1: Some(CPURegisterId::D), reg2: None }),
        0x16 => Some(Instruction { name: "LD", addr_mode: AddrMode::R_IMM, kind: InstrKind::Ldr, condition: None, reg1: Some(CPURegisterId::D), reg2: None }),
        0x17 => Some(Instruction { name: "RLA", addr_mode: AddrMode::R, kind: InstrKind::Rla, condition: None, reg1: None, reg2: None }),
        0x18 => Some(Instruction { name: "JR", addr_mode: AddrMode::R, kind: InstrKind::Jr, condition: None, reg1: None, reg2: None }),
        0x19 => Some(Instruction { name: "ADD", addr_mode: AddrMode::R16_R16, kind: InstrKind::Add, condition: None, reg1: Some(CPURegisterId::HL), reg2: Some(CPURegisterId::DE) }),
        0x1a => Some(Instruction { name: "LD", addr_mode: AddrMode::R_RADDR, kind: InstrKind::Ldr, condition: None, reg1: Some(CPURegisterId::A), reg2: Some(CPURegisterId::DE) }),
        0x1b => Some(Instruction { name: "DEC", addr_mode: AddrMode::R16, kind: InstrKind::Dec, condition: None, reg1: Some(CPURegisterId::DE), reg2: None }),
        0x1c => Some(Instruction { name: "INC", addr_mode: AddrMode::R, kind: InstrKind::Inc, condition: None, reg1: Some(CPURegisterId::E), reg2: None }),
        0x1d => Some(Instruction { name: "DEC", addr_mode: AddrMode::R, kind: InstrKind::Dec, condition: None, reg1: Some(CPURegisterId::E), reg2: None }),
        0x1e => Some(Instruction { name: "LD", addr_mode: AddrMode::R_IMM, kind: InstrKind::Ldr, condition: None, reg1: Some(CPURegisterId::E), reg2: None }),
        0x1f => Some(Instruction { name: "RRA", addr_mode: AddrMode::R, kind: InstrKind::Rra, condition: None, reg1: None, reg2: None }),
        0x20 => Some(Instruction { name: "JR", addr_mode: AddrMode::R, kind: InstrKind::Jr, condition: Some(CondType::Nz), reg1: None, reg2: None }),
        0x21 => Some(Instruction { name: "LD", addr_mode: AddrMode::R16_IMM16, kind: InstrKind::Ldr, condition: None, reg1: Some(CPURegisterId::HL), reg2: None }),
        0x22 => Some(Instruction { name: "LD", addr_mode: AddrMode::RADDR_R, kind: InstrKind::Ldi, condition: None, reg1: Some(CPURegisterId::HL), reg2: Some(CPURegisterId::A) }),
        0x23 => Some(Instruction { name: "INC", addr_mode: AddrMode::R16, kind: InstrKind::Inc, condition: None, reg1: Some(CPURegisterId::HL), reg2: None }),
        0x24 => Some(Instruction { name: "INC", addr_mode: AddrMode::R, kind: InstrKind::Inc, condition: None, reg1: Some(CPURegisterId::H), reg2: None }),
        0x25 => Some(Instruction { name: "DEC", addr_mode: AddrMode::R, kind: InstrKind::Dec, condition: None, reg1: Some(CPURegisterId::H), reg2: None }),
        0x26 => Some(Instruction { name: "LD", addr_mode: AddrMode::R_IMM, kind: InstrKind::Ldr, condition: None, reg1: Some(CPURegisterId::H), reg2: None }),
        0x27 => Some(Instruction { name: "DAA", addr_mode: AddrMode::R, kind: InstrKind::Daa, condition: None, reg1: None, reg2: None }),
        0x28 => Some(Instruction { name: "JR", addr_mode: AddrMode::R, kind: InstrKind::Jr, condition: Some(CondType::Z), reg1: None, reg2: None }),
        0x29 => Some(Instruction { name: "ADD", addr_mode: AddrMode::R16_R16, kind: InstrKind::Add, condition: None, reg1: Some(CPURegisterId::HL), reg2: Some(CPURegisterId::HL) }),
        0x2a => Some(Instruction { name: "LD", addr_mode: AddrMode::R_RADDR, kind: InstrKind::Ldi, condition: None, reg1: Some(CPURegisterId::A), reg2: Some(CPURegisterId::HL) }),
        0x2b => Some(Instruction { name: "DEC", addr_mode: AddrMode::R16, kind: InstrKind::Dec, condition: None, reg1: Some(CPURegisterId::HL), reg2: None }),
        0x2c => Some(Instruction { name: "INC", addr_mode: AddrMode::R, kind: InstrKind::Inc, condition: None, reg1: Some(CPURegisterId::L), reg2: None }),
        0x2d => Some(Instruction { name: "DEC", addr_mode: AddrMode::R, kind: InstrKind::Dec, condition: None, reg1: Some(CPURegisterId::L), reg2: None }),
        0x2e => Some(Instruction { name: "LD", addr_mode: AddrMode::R_IMM, kind: InstrKind::Ldr, condition: None, reg1: Some(CPURegisterId::L), reg2: None }),
        0x2f => Some(Instruction { name: "CPL", addr_mode: AddrMode::R, kind: InstrKind::Cpl, condition: None, reg1: None, reg2: None }),
        0x30 => Some(Instruction { name: "JR", addr_mode: AddrMode::R, kind: InstrKind::Jr, condition: Some(CondType::Nc), reg1: None, reg2: None }),
        0x31 => Some(Instruction { name: "LD", addr_mode: AddrMode::R16_IMM16, kind: InstrKind::Ldr, condition: None, reg1: Some(CPURegisterId::SP), reg2: None }),
        0x32 => Some(Instruction { name: "LD", addr_mode: AddrMode::RADDR_R, kind: InstrKind::Ldd, condition: None, reg1: Some(CPURegisterId::HL), reg2: Some(CPURegisterId::A) }),
        0x33 => Some(Instruction { name: "INC", addr_mode: AddrMode::R16, kind: InstrKind::Inc, condition: None, reg1: Some(CPURegisterId::SP), reg2: None }),
        0x34 => Some(Instruction { name: "INC", addr_mode: AddrMode::RADDR, kind: InstrKind::Inc, condition: None, reg1: Some(CPURegisterId::HL), reg2: None }),
        0x35 => Some(Instruction { name: "DEC", addr_mode: AddrMode::RADDR, kind: InstrKind::Dec, condition: None, reg1: Some(CPURegisterId::HL), reg2: None }),
        0x36 => Some(Instruction { name: "LD", addr_mode: AddrMode::RADDR_IMM, kind: InstrKind::Ldm, condition: None, reg1: Some(CPURegisterId::HL), reg2: None }),
        0x37 => Some(Instruction { name: "SCF", addr_mode: AddrMode::R, kind: InstrKind::Scf, condition: None, reg1: None, reg2: None }),
        0x38 => Some(Instruction { name: "JR", addr_mode: AddrMode::R, kind: InstrKind::Jr, condition: Some(CondType::C), reg1: None, reg2: None }),
        0x39 => Some(Instruction { name: "ADD", addr_mode: AddrMode::R16_R16, kind: InstrKind::Add, condition: None, reg1: Some(CPURegisterId::HL), reg2: Some(CPURegisterId::SP) }),
        0x3a => Some(Instruction { name: "LD", addr_mode: AddrMode::R_RADDR, kind: InstrKind::Ldd, condition: None, reg1: Some(CPURegisterId::A), reg2: Some(CPURegisterId::HL) }),
        0x3b => Some(Instruction { name: "DEC", addr_mode: AddrMode::R16, kind: InstrKind::Dec, condition: None, reg1: Some(CPURegisterId::SP), reg2: None }),
        0x3c => Some(Instruction { name: "INC", addr_mode: AddrMode::R, kind: InstrKind::Inc, condition: None, reg1: Some(CPURegisterId::A), reg2: None }),
        0x3d => Some(Instruction { name: "DEC", addr_mode: AddrMode::R, kind: InstrKind::Dec, condition: None, reg1: Some(CPURegisterId::A), reg2: None }),
        0x3e => Some(Instruction { name: "LD", addr_mode: AddrMode::R_IMM, kind: InstrKind::Ldr, condition: None, reg1: Some(CPURegisterId::A), reg2: None }),
        0x3f => Some(Instruction { name: "CCF", addr_mode: AddrMode::R, kind: InstrKind::Ccf, condition: None, reg1: None, reg2: None }),
        0x76 => Some(Instruction { name: "HALT", addr_mode: AddrMode::R, kind: InstrKind::Halt, condition: None, reg1: None, reg2: None }),
        0xc0 => Some(Instruction { name: "RET", addr_mode: AddrMode::R, kind: InstrKind::Ret, condition: Some(CondType::Nz), reg1: None, reg2: None }),
        0xc1 => Some(Instruction { name: "POP", addr_mode: AddrMode::R16, kind: InstrKind::Pop, condition: None, reg1: Some(CPURegisterId::BC), reg2: None }),
        0xc2 => Some(Instruction { name: "JP", addr_mode: AddrMode::IMMADDR, kind: InstrKind::Jp, condition: Some(CondType::Nz), reg1: None, reg2: None }),
        0xc3 => Some(Instruction { name: "JP", addr_mode: AddrMode::IMMADDR, kind: InstrKind::Jp, condition: None, reg1: None, reg2: None }),
        0xc4 => Some(Instruction { name: "CALL", addr_mode: AddrMode::IMMADDR, kind: InstrKind::Call, condition: Some(CondType::Nz), reg1: None, reg2: None }),
        0xc5 => Some(Instruction { name: "PUSH", addr_mode: AddrMode::R16, kind: InstrKind::Push, condition: None, reg1: Some(CPURegisterId::BC), reg2: None }),
        0xc6 => Some(Instruction { name: "ADD", addr_mode: AddrMode::R_IMM, kind: InstrKind::Add, condition: None, reg1: Some(CPURegisterId::A), reg2: None }),
        0xc7 => Some(Instruction { name: "RST", addr_mode: AddrMode::R, kind: InstrKind::Rst(0x00), condition: None, reg1: None, reg2: None }),
        0xc8 => Some(Instruction { name: "RET", addr_mode: AddrMode::R, kind: InstrKind::Ret, condition: Some(CondType::Z), reg1: None, reg2: None }),
        0xc9 => Some(Instruction { name: "RET", addr_mode: AddrMode::R, kind: InstrKind::Ret, condition: None, reg1: None, reg2: None }),
        0xca => Some(Instruction { name: "JP", addr_mode: AddrMode::IMMADDR, kind: InstrKind::Jp, condition: Some(CondType::Z), reg1: None, reg2: None }),
        0xcc => Some(Instruction { name: "CALL", addr_mode: AddrMode::IMMADDR, kind: InstrKind::Call, condition: Some(CondType::Z), reg1: None, reg2: None }),
        0xcd => Some(Instruction { name: "CALL", addr_mode: AddrMode::IMMADDR, kind: InstrKind::Call, condition: None, reg1: None, reg2: None }),
        0xce => Some(Instruction { name: "ADC", addr_mode: AddrMode::R_IMM, kind: InstrKind::Adc, condition: None, reg1: Some(CPURegisterId::A), reg2: None }),
        0xcf => Some(Instruction { name: "RST", addr_mode: AddrMode::R_R, kind: InstrKind::Rst(0x08), condition: None, reg1: None, reg2: None }),
        0xd0 => Some(Instruction { name: "RET", addr_mode: AddrMode::R, kind: InstrKind::Ret, condition: Some(CondType::Nc), reg1: None, reg2: None }),
        0xd1 => Some(Instruction { name: "POP", addr_mode: AddrMode::R16, kind: InstrKind::Pop, condition: None, reg1: Some(CPURegisterId::DE), reg2: None }),
        0xd2 => Some(Instruction { name: "JP", addr_mode: AddrMode::IMMADDR, kind: InstrKind::Jp, condition: Some(CondType::Nc), reg1: None, reg2: None }),
        0xd4 => Some(Instruction { name: "CALL", addr_mode: AddrMode::IMMADDR, kind: InstrKind::Call, condition: Some(CondType::Nc), reg1: None, reg2: None }),
        0xd5 => Some(Instruction { name: "PUSH", addr_mode: AddrMode::R16, kind: InstrKind::Push, condition: None, reg1: Some(CPURegisterId::DE), reg2: None }),
        0xd6 => Some(Instruction { name: "SUB", addr_mode: AddrMode::R_IMM, kind: InstrKind::Sub, condition: None, reg1: Some(CPURegisterId::A), reg2: None }),
        0xd7 => Some(Instruction { name: "RST", addr_mode: AddrMode::R, kind: InstrKind::Rst(0x10), condition: None, reg1: None, reg2: None }),
        0xd8 => Some(Instruction { name: "RET", addr_mode: AddrMode::R, kind: InstrKind::Ret, condition: Some(CondType::C), reg1: None, reg2: None }),
        0xd9 => Some(Instruction { name: "RETI", addr_mode: AddrMode::R, kind: InstrKind::Reti, condition: None, reg1: None, reg2: None }),
        0xda => Some(Instruction { name: "JP", addr_mode: AddrMode::IMMADDR, kind: InstrKind::Jp, condition: Some(CondType::C), reg1: None, reg2: None }),
        0xdc => Some(Instruction { name: "CALL", addr_mode: AddrMode::IMMADDR, kind: InstrKind::Call, condition: Some(CondType::C), reg1: None, reg2: None }),
        0xde => Some(Instruction { name: "SBC", addr_mode: AddrMode::R_IMM, kind: InstrKind::Sbc, condition: None, reg1: Some(CPURegisterId::A), reg2: None }),
        0xdf => Some(Instruction { name: "RST", addr_mode: AddrMode::R_R, kind: InstrKind::Rst(0x18), condition: None, reg1: None, reg2: None }),
        0xe0 => Some(Instruction { name: "LDH", addr_mode: AddrMode::IMM_R, kind: InstrKind::Ldh, condition: None, reg1: None, reg2: Some(CPURegisterId::A) }),
        0xe1 => Some(Instruction { name: "POP", addr_mode: AddrMode::R16, kind: InstrKind::Pop, condition: None, reg1: Some(CPURegisterId::HL), reg2: None }),
        0xe2 => Some(Instruction { name: "LDH", addr_mode: AddrMode::RADDR_R, kind: InstrKind::Ldh, condition: None, reg1: Some(CPURegisterId::C), reg2: Some(CPURegisterId::A) }),
        0xe5 => Some(Instruction { name: "PUSH", addr_mode: AddrMode::R16, kind: InstrKind::Push, condition: None, reg1: Some(CPURegisterId::HL), reg2: None }),
        0xe6 => Some(Instruction { name: "AND", addr_mode: AddrMode::R_IMM, kind: InstrKind::And, condition: None, reg1: Some(CPURegisterId::A), reg2: None }),
        0xe7 => Some(Instruction { name: "RST", addr_mode: AddrMode::R_R, kind: InstrKind::Rst(0x20), condition: None, reg1: None, reg2: None }),
        0xe8 => Some(Instruction { name: "ADD", addr_mode: AddrMode::R16_SIMM, kind: InstrKind::Add, condition: None, reg1: Some(CPURegisterId::SP), reg2: None }),
        0xe9 => Some(Instruction { name: "JP", addr_mode: AddrMode::R16, kind: InstrKind::Jp, condition: None, reg1: Some(CPURegisterId::HL), reg2: None }),
        0xea => Some(Instruction { name: "LD", addr_mode: AddrMode::IMMADDR_R, kind: InstrKind::Ldm, condition: None, reg1: None, reg2: Some(CPURegisterId::A) }),
        0xee => Some(Instruction { name: "XOR", addr_mode: AddrMode::R_IMM, kind: InstrKind::Xor, condition: None, reg1: Some(CPURegisterId::A), reg2: None }),
        0xef => Some(Instruction { name: "RST", addr_mode: AddrMode::R, kind: InstrKind::Rst(0x28), condition: None, reg1: None, reg2: None }),
        0xf0 => Some(Instruction { name: "LDH", addr_mode: AddrMode::R_IMMADDR, kind: InstrKind::Ldh, condition: None, reg1: Some(CPURegisterId::A), reg2: None }),
        0xf1 => Some(Instruction { name: "POP", addr_mode: AddrMode::R16, kind: InstrKind::Pop, condition: None, reg1: Some(CPURegisterId::AF), reg2: None }),
        0xf2 => Some(Instruction { name: "LDH", addr_mode: AddrMode::R_RADDR, kind: InstrKind::Ldh, condition: None, reg1: Some(CPURegisterId::A), reg2: Some(CPURegisterId::C) }),
        0xf3 => Some(Instruction { name: "DI", addr_mode: AddrMode::R_R, kind: InstrKind::Di, condition: None, reg1: None, reg2: None }),
        0xf5 => Some(Instruction { name: "PUSH", addr_mode: AddrMode::R16, kind: InstrKind::Push, condition: None, reg1: Some(CPURegisterId::AF), reg2: None }),
        0xf6 => Some(Instruction { name: "OR", addr_mode: AddrMode::R_IMM, kind: InstrKind::Or, condition: None, reg1: Some(CPURegisterId::A), reg2: None }),
        0xf7 => Some(Instruction { name: "RST", addr_mode: AddrMode::R_R, kind: InstrKind::Rst(0x30), condition: None, reg1: None, reg2: None }),
        0xf8 => Some(Instruction { name: "LD", addr_mode: AddrMode::R16_R16_IMM, kind: InstrKind::Ldr, condition: None, reg1: Some(CPURegisterId::HL), reg2: Some(CPURegisterId::SP) }),
        0xf9 => Some(Instruction { name: "LD", addr_mode: AddrMode::R16_R16, kind: InstrKind::Ldr, condition: None, reg1: Some(CPURegisterId::SP), reg2: Some(CPURegisterId::HL) }),
        0xfa => Some(Instruction { name: "LD", addr_mode: AddrMode::R_IMMADDR, kind: InstrKind::Ldr, condition: None, reg1: Some(CPURegisterId::A), reg2: None }),
        0xfb => Some(Instruction { name: "EI", addr_mode: AddrMode::R_R, kind: InstrKind::Ei, condition: None, reg1: None, reg2: None }),
        0xfe => Some(Instruction { name: "CP", addr_mode: AddrMode::R_IMM, kind: InstrKind::Cp, condition: None, reg1: Some(CPURegisterId::A), reg2: None }),
        0xff => Some(Instruction { name: "RST", addr_mode: AddrMode::R_R, kind: InstrKind::Rst(0x38), condition: None, reg1: None, reg2: None }),
        _ => None,
    }
}

/// The instruction of an opcode: a byte, or 0x100 plus the byte after a 0xCB
/// prefix. `None` for the unused opcodes.
pub open spec fn instruction_table(op: u16) -> Option<Instruction> {
    if op >= 0x200 {
        None
    } else if op >= 0x100 {
        Some(cb_block(op - 0x100))
    } else if 0x40 <= op <= 0x7f && op != 0x76 {
        Some(ld_block(op as int))
    } else if 0x80 <= op <= 0xbf {
        Some(alu_block(op as int))
    } else {
        base_table(op)
    }
}

fn decode_base(op: u16) -> (r: Option<Instruction>)
    ensures
        r == base_table(op),
{
    match op {
        0x00 => Some(Instruction { name: "NOP", addr_mode: AddrMode::R_R, kind: InstrKind::Nop, condition: None, reg1: None, reg2: None }),
        0x01 => Some(Instruction { name: "LD", addr_mode: AddrMode::R16_IMM16, kind: InstrKind::Ldr, condition: None, reg1: Some(CPURegisterId::BC), reg2: None }),
        0x02 => Some(Instruction { name: "LD", addr_mode: AddrMode::RADDR_R, kind: InstrKind::Ldm, condition: None, reg1: Some(CPURegisterId::BC), reg2: Some(CPURegisterId::A) }),
        0x03 => Some(Instruction { name: "INC", addr_mode: AddrMode::R16, kind: InstrKind::Inc, condition: None, reg1: Some(CPURegisterId::BC), reg2: None }),
        0x04 => Some(Instruction { name: "INC", addr_mode: AddrMode::R, kind: InstrKind::Inc, condition: None, reg1: Some(CPURegisterId::B), reg2: None }),
        0x05 => Some(Instruction { name: "DEC", addr_mode: AddrMode::R, kind: InstrKind::Dec, condition: None, reg1: Some(CPURegisterId::B), reg2: None }),
        0x06 => Some(Instruction { name: "LD", addr_mode: AddrMode::R_IMM, kind: InstrKind::Ldr, condition: None, reg1: Some(CPURegisterId::B), reg2: None }),
        0x07 => Some(Instruction { name: "RLCA", addr_mode: AddrMode::R, kind: InstrKind::Rlca, condition: None, reg1: None, reg2: None }),
        0x08 => Some(Instruction { name: "LD", addr_mode: AddrMode::IMMADDR_R16, kind: InstrKind::Ldm, condition: None, reg1: None, reg2: Some(CPURegisterId::SP) }),
        0x09 => Some(Instruction { name: "ADD", addr_mode: AddrMode::R16_R16, kind: InstrKind::Add, condition: None, reg1: Some(CPURegisterId::HL), reg2: Some(CPURegisterId::BC) }),
        0x0a => Some(Instruction { name: "LD", addr_mode: AddrMode::R_RADDR, kind: InstrKind::Ldr, condition: None, reg1: Some(CPURegisterId::A), reg2: Some(CPURegisterId::BC) }),
        0x0b => Some(Instruction { name: "DEC", addr_mode: AddrMode::R16, kind: InstrKind::Dec, condition: None, reg1: Some(CPURegisterId::BC), reg2: None }),
        0x0c => Some(Instruction { name: "INC", addr_mode: AddrMode::R, kind: InstrKind::Inc, condition: None, reg1: Some(CPURegisterId::C), reg2: None }),
        0x0d => Some(Instruction { name: "DEC", addr_mode: AddrMode::R, kind: InstrKind::Dec, condition: None, reg1: Some(CPURegisterId::C), reg2: None }),
        0x0e => Some(Instruction { name: "LD", addr_mode: AddrMode::R_IMM, kind: InstrKind::Ldr, condition: None, reg1: Some(CPURegisterId::C), reg2: None }),
        0x0f => Some(Instruction { name: "RRCA", addr_mode: AddrMode::R, kind: InstrKind::Rrca, condition: None, reg1: None, reg2: None }),
        0x10 => Some(Instruction { name: "STOP", addr_mode: AddrMode::R, kind: InstrKind::Stop, condition: None, reg1: None, reg2: None }),
        0x11 => Some(Instruction { name: "LD", addr_mode: AddrMode::R16_IMM16, kind: InstrKind::Ldr, condition: None, reg1: Some(CPURegisterId::DE), reg2: None }),
        0x12 => Some(Instruction { name: "LD", addr_mode: AddrMode::RADDR_R, kind: InstrKind::Ldm, condition: None, reg1: Some(CPURegisterId::DE), reg2: Some(CPURegisterId::A) }),
        0x13 => Some(Instruction { name: "INC", addr_mode: AddrMode::R16, kind: InstrKind::Inc, condition: None, reg1: Some(CPURegisterId::DE), reg2: None }),
        0x14 => Some(Instruction { name: "INC", addr_mode: AddrMode::R, kind: InstrKind::Inc, condition: None, reg1: Some(CPURegisterId::D), reg2: None }),
        0x15 => Some(Instruction { name: "DEC", addr_mode: AddrMode::R, kind: InstrKind::Dec, condition: None, reg1: Some(CPURegisterId::D), reg2: None }),
        0x16 => Some(Instruction { name: "LD", addr_mode: AddrMode::R_IMM, kind: InstrKind::Ldr, condition: None, reg1: Some(CPURegisterId::D), reg2: None }),
        0x17 => Some(Instruction { name: "RLA", addr_mode: AddrMode::R, kind: InstrKind::Rla, condition: None, reg1: None, reg2: None }),
        0x18 => Some(Instruction { name: "JR", addr_mode: AddrMode::R, kind: InstrKind::Jr, condition: None, reg1: None, reg2: None }),
        0x19 => Some(Instruction { name: "ADD", addr_mode: AddrMode::R16_R16, kind: InstrKind::Add, condition: None, reg1: Some(CPURegisterId::HL), reg2: Some(CPURegisterId::DE) }),
        0x1a => Some(Instruction { name: "LD", addr_mode: AddrMode::R_RADDR, kind: InstrKind::Ldr, condition: None, reg1: Some(CPURegisterId::A), reg2: Some(CPURegisterId::DE) }),
        0x1b => Some(Instruction { name: "DEC", addr_mode: AddrMode::R16, kind: InstrKind::Dec, condition: None, reg1: Some(CPURegisterId::DE), reg2: None }),
        0x1c => Some(Instruction { name: "INC", addr_mode: AddrMode::R, kind: InstrKind::Inc, condition: None, reg1: Some(CPURegisterId::E), reg2: None }),
        0x1d => Some(Instruction { name: "DEC", addr_mode: AddrMode::R, kind: InstrKind::Dec, condition: None, reg1: Some(CPURegisterId::E), reg2: None }),
        0x1e => Some(Instruction { name: "LD", addr_mode: AddrMode::R_IMM, kind: InstrKind::Ldr, condition: None, reg1: Some(CPURegisterId::E), reg2: None }),
        0x1f => Some(Instruction { name: "RRA", addr_mode: AddrMode::R, kind: InstrKind::Rra, condition: None, reg1: None, reg2: None }),
        0x20 => Some(Instruction { name: "JR", addr_mode: AddrMode::R, kind: InstrKind::Jr, condition: Some(CondType::Nz), reg1: None, reg2: None }),
        0x21 => Some(Instruction { name: "LD", addr_mode: AddrMode::R16_IMM16, kind: InstrKind::Ldr, condition: None, reg1: Some(CPURegisterId::HL), reg2: None }),
        0x22 => Some(Instruction { name: "LD", addr_mode: AddrMode::RADDR_R, kind: InstrKind::Ldi, condition: None, reg1: Some(CPURegisterId::HL), reg2: Some(CPURegisterId::A) }),
        0x23 => Some(Instruction { name: "INC", addr_mode: AddrMode::R16, kind: InstrKind::Inc, condition: None, reg1: Some(CPURegisterId::HL), reg2: None }),
        0x24 => Some(Instruction { name: "INC", addr_mode: AddrMode::R, kind: InstrKind::Inc, condition: None, reg1: Some(CPURegisterId::H), reg2: None }),
        0x25 => Some(Instruction { name: "DEC", addr_mode: AddrMode::R, kind: InstrKind::Dec, condition: None, reg1: Some(CPURegisterId::H), reg2: None }),
        0x26 => Some(Instruction { name: "LD", addr_mode: AddrMode::R_IMM, kind: InstrKind::Ldr, condition: None, reg1: Some(CPURegisterId::H), reg2: None }),
        0x27 => Some(Instruction { name: "DAA", addr_mode: AddrMode::R, kind: InstrKind::Daa, condition: None, reg1: None, reg2: None }),
        0x28 => Some(Instruction { name: "JR", addr_mode: AddrMode::R, kind: InstrKind::Jr, condition: Some(CondType::Z), reg1: None, reg2: None }),
        0x29 => Some(Instruction { name: "ADD", addr_mode: AddrMode::R16_R16, kind: InstrKind::Add, condition: None, reg1: Some(CPURegisterId::HL), reg2: Some(CPURegisterId::HL) }),
        0x2a => Some(Instruction { name: "LD", addr_mode: AddrMode::R_RADDR, kind: InstrKind::Ldi, condition: None, reg1: Some(CPURegisterId::A), reg2: Some(CPURegisterId::HL) }),
        0x2b => Some(Instruction { name: "DEC", addr_mode: AddrMode::R16, kind: InstrKind::Dec, condition: None, reg1: Some(CPURegisterId::HL), reg2: None }),
        0x2c => Some(Instruction { name: "INC", addr_mode: AddrMode::R, kind: InstrKind::Inc, condition: None, reg1: Some(CPURegisterId::L), reg2: None }),
        0x2d => Some(Instruction { name: "DEC", addr_mode: AddrMode::R, kind: InstrKind::Dec, condition: None, reg1: Some(CPURegisterId::L), reg2: None }),
        0x2e => Some(Instruction { name: "LD", addr_mode: AddrMode::R_IMM, kind: InstrKind::Ldr, condition: None, reg1: Some(CPURegisterId::L), reg2: None }),
        0x2f => Some(Instruction { name: "CPL", addr_mode: AddrMode::R, kind: InstrKind::Cpl, condition: None, reg1: None, reg2: None }),
        0x30 => Some(Instruction { name: "JR", addr_mode: AddrMode::R, kind: InstrKind::Jr, condition: Some(CondType::Nc), reg1: None, reg2: None }),
        0x31 => Some(Instruction { name: "LD", addr_mode: AddrMode::R16_IMM16, kind: InstrKind::Ldr, condition: None, reg1: Some(CPURegisterId::SP), reg2: None }),
        0x32 => Some(Instruction { name: "LD", addr_mode: AddrMode::RADDR_R, kind: InstrKind::Ldd, condition: None, reg1: Some(CPURegisterId::HL), reg2: Some(CPURegisterId::A) }),
        0x33 => Some(Instruction { name: "INC", addr_mode: AddrMode::R16, kind: InstrKind::Inc, condition: None, reg1: Some(CPURegisterId::SP), reg2: None }),
        0x34 => Some(Instruction { name: "INC", addr_mode: AddrMode::RADDR, kind: InstrKind::Inc, condition: None, reg1: Some(CPURegisterId::HL), reg2: None }),
        0x35 => Some(Instruction { name: "DEC", addr_mode: AddrMode::RADDR, kind: InstrKind::Dec, condition: None, reg1: Some(CPURegisterId::HL), reg2: None }),
        0x36 => Some(Instruction { name: "LD", addr_mode: AddrMode::RADDR_IMM, kind: InstrKind::Ldm, condition: None, reg1: Some(CPURegisterId::HL), reg2: None }),
        0x37 => Some(Instruction { name: "SCF", addr_mode: AddrMode::R, kind: InstrKind::Scf, condition: None, reg1: None, reg2: None }),
        0x38 => Some(Instruction { name: "JR", addr_mode: AddrMode::R, kind: InstrKind::Jr, condition: Some(CondType::C), reg1: None, reg2: None }),
        0x39 => Some(Instruction { name: "ADD", addr_mode: AddrMode::R16_R16, kind: InstrKind::Add, condition: None, reg1: Some(CPURegisterId::HL), reg2: Some(CPURegisterId::SP) }),
        0x3a => Some(Instruction { name: "LD", addr_mode: AddrMode::R_RADDR, kind: InstrKind::Ldd, condition: None, reg1: Some(CPURegisterId::A), reg2: Some(CPURegisterId::HL) }),
        0x3b => Some(Instruction { name: "DEC", addr_mode: AddrMode::R16, kind: InstrKind::Dec, condition: None, reg1: Some(CPURegisterId::SP), reg2: None }),
        0x3c => Some(Instruction { name: "INC", addr_mode: AddrMode::R, kind: InstrKind::Inc, condition: None, reg1: Some(CPURegisterId::A), reg2: None }),
        0x3d => Some(Instruction { name: "DEC", addr_mode: AddrMode::R, kind: InstrKind::Dec, condition: None, reg1: Some(CPURegisterId::A), reg2: None }),
        0x3e => Some(Instruction { name: "LD", addr_mode: AddrMode::R_IMM, kind: InstrKind::Ldr, condition: None, reg1: Some(CPURegisterId::A), reg2: None }),
        0x3f => Some(Instruction { name: "CCF", addr_mode: AddrMode::R, kind: InstrKind::Ccf, condition: None, reg1: None, reg2: None }),
        0x76 => Some(Instruction { name: "HALT", addr_mode: AddrMode::R, kind: InstrKind::Halt, condition: None, reg1: None, reg2: None }),
        0xc0 => Some(Instruction { name: "RET", addr_mode: AddrMode::R, kind: InstrKind::Ret, condition: Some(CondType::Nz), reg1: None, reg2: None }),
        0xc1 => Some(Instruction { name: "POP", addr_mode: AddrMode::R16, kind: InstrKind::Pop, condition: None, reg1: Some(CPURegisterId::BC), reg2: None }),
        0xc2 => Some(Instruction { name: "JP", addr_mode: AddrMode::IMMADDR, kind: InstrKind::Jp, condition: Some(CondType::Nz), reg1: None, reg2: None }),
        0xc3 => Some(Instruction { name: "JP", addr_mode: AddrMode::IMMADDR, kind: InstrKind::Jp, condition: None, reg1: None, reg2: None }),
        0xc4 => Some(Instruction { name: "CALL", addr_mode: AddrMode::IMMADDR, kind: InstrKind::Call, condition: Some(CondType::Nz), reg1: None, reg2: None }),
        0xc5 => Some(Instruction { name: "PUSH", addr_mode: AddrMode::R16, kind: InstrKind::Push, condition: None, reg1: Some(CPURegisterId::BC), reg2: None }),
        0xc6 => Some(Instruction { name: "ADD", addr_mode: AddrMode::R_IMM, kind: InstrKind::Add, condition: None, reg1: Some(CPURegisterId::A), reg2: None }),
        0xc7 => Some(Instruction { name: "RST", addr_mode: AddrMode::R, kind: InstrKind::Rst(0x00), condition: None, reg1: None, reg2: None }),
        0xc8 => Some(Instruction { name: "RET", addr_mode: AddrMode::R, kind: InstrKind::Ret, condition: Some(CondType::Z), reg1: None, reg2: None }),
        0xc9 => Some(Instruction { name: "RET", addr_mode: AddrMode::R, kind: InstrKind::Ret, condition: None, reg1: None, reg2: None }),
        0xca => Some(Instruction { name: "JP", addr_mode: AddrMode::IMMADDR, kind: InstrKind::Jp, condition: Some(CondType::Z), reg1: None, reg2: None }),
        0xcc => Some(Instruction { name: "CALL", addr_mode: AddrMode::IMMADDR, kind: InstrKind::Call, condition: Some(CondType::Z), reg1: None, reg2: None }),
        0xcd => Some(Instruction { name: "CALL", addr_mode: AddrMode::IMMADDR, kind: InstrKind::Call, condition: None, reg1: None, reg2: None }),
        0xce => Some(Instruction { name: "ADC", addr_mode: AddrMode::R_IMM, kind: InstrKind::Adc, condition: None, reg1: Some(CPURegisterId::A), reg2: None }),
        0xcf => Some(Instruction { name: "RST", addr_mode: AddrMode::R_R, kind: InstrKind::Rst(0x08), condition: None, reg1: None, reg2: None }),
        0xd0 => Some(Instruction { name: "RET", addr_mode: AddrMode::R, kind: InstrKind::Ret, condition: Some(CondType::Nc), reg1: None, reg2: None }),
        0xd1 => Some(Instruction { name: "POP", addr_mode: AddrMode::R16, kind: InstrKind::Pop, condition: None, reg1: Some(CPURegisterId::DE), reg2: None }),
        0xd2 => Some(Instruction { name: "JP", addr_mode: AddrMode::IMMADDR, kind: InstrKind::Jp, condition: Some(CondType::Nc), reg1: None, reg2: None }),
        0xd4 => Some(Instruction { name: "CALL", addr_mode: AddrMode::IMMADDR, kind: InstrKind::Call, condition: Some(CondType::Nc), reg1: None, reg2: None }),
        0xd5 => Some(Instruction { name: "PUSH", addr_mode: AddrMode::R16, kind: InstrKind::Push, condition: None, reg1: Some(CPURegisterId::DE), reg2: None }),
        0xd6 => Some(Instruction { name: "SUB", addr_mode: AddrMode::R_IMM, kind: InstrKind::Sub, condition: None, reg1: Some(CPURegisterId::A), reg2: None }),
        0xd7 => Some(Instruction { name: "RST", addr_mode: AddrMode::R, kind: InstrKind::Rst(0x10), condition: None, reg1: None, reg2: None }),
        0xd8 => Some(Instruction { name: "RET", addr_mode: AddrMode::R, kind: InstrKind::Ret, condition: Some(CondType::C), reg1: None, reg2: None }),
        0xd9 => Some(Instruction { name: "RETI", addr_mode: AddrMode::R, kind: InstrKind::Reti, condition: None, reg1: None, reg2: None }),
        0xda => Some(Instruction { name: "JP", addr_mode: AddrMode::IMMADDR, kind: InstrKind::Jp, condition: Some(CondType::C), reg1: None, reg2: None }),
        0xdc => Some(Instruction { name: "CALL", addr_mode: AddrMode::IMMADDR, kind: InstrKind::Call, condition: Some(CondType::C), reg1: None, reg2: None }),
        0xde => Some(Instruction { name: "SBC", addr_mode: AddrMode::R_IMM, kind: InstrKind::Sbc, condition: None, reg1: Some(CPURegisterId::A), reg2: None }),
        0xdf => Some(Instruction { name: "RST", addr_mode: AddrMode::R_R, kind: InstrKind::Rst(0x18), condition: None, reg1: None, reg2: None }),
        0xe0 => Some(Instruction { name: "LDH", addr_mode: AddrMode::IMM_R, kind: InstrKind::Ldh, condition: None, reg1: None, reg2: Some(CPURegisterId::A) }),
        0xe1 => Some(Instruction { name: "POP", addr_mode: AddrMode::R16, kind: InstrKind::Pop, condition: None, reg1: Some(CPURegisterId::HL), reg2: None }),
        0xe2 => Some(Instruction { name: "LDH", addr_mode: AddrMode::RADDR_R, kind: InstrKind::Ldh, condition: None, reg1: Some(CPURegisterId::C), reg2: Some(CPURegisterId::A) }),
        0xe5 => Some(Instruction { name: "PUSH", addr_mode: AddrMode::R16, kind: InstrKind::Push, condition: None, reg1: Some(CPURegisterId::HL), reg2: None }),
        0xe6 => Some(Instruction { name: "AND", addr_mode: AddrMode::R_IMM, kind: InstrKind::And, condition: None, reg1: Some(CPURegisterId::A), reg2: None }),
        0xe7 => Some(Instruction { name: "RST", addr_mode: AddrMode::R_R, kind: InstrKind::Rst(0x20), condition: None, reg1: None, reg2: None }),
        0xe8 => Some(Instruction { name: "ADD", addr_mode: AddrMode::R16_SIMM, kind: InstrKind::Add, condition: None, reg1: Some(CPURegisterId::SP), reg2: None }),
        0xe9 => Some(Instruction { name: "JP", addr_mode: AddrMode::R16, kind: InstrKind::Jp, condition: None, reg1: Some(CPURegisterId::HL), reg2: None }),
        0xea => Some(Instruction { name: "LD", addr_mode: AddrMode::IMMADDR_R, kind: InstrKind::Ldm, condition: None, reg1: None, reg2: Some(CPURegisterId::A) }),
        0xee => Some(Instruction { name: "XOR", addr_mode: AddrMode::R_IMM, kind: InstrKind::Xor, condition: None, reg1: Some(CPURegisterId::A), reg2: None }),
        0xef => Some(Instruction { name: "RST", addr_mode: AddrMode::R, kind: InstrKind::Rst(0x28), condition: None, reg1: None, reg2: None }),
        0xf0 => Some(Instruction { name: "LDH", addr_mode: AddrMode::R_IMMADDR, kind: InstrKind::Ldh, condition: None, reg1: Some(CPURegisterId::A), reg2: None }),
        0xf1 => Some(Instruction { name: "POP", addr_mode: AddrMode::R16, kind: InstrKind::Pop, condition: None, reg1: Some(CPURegisterId::AF), reg2: None }),
        0xf2 => Some(Instruction { name: "LDH", addr_mode: AddrMode::R_RADDR, kind: InstrKind::Ldh, condition: None, reg1: Some(CPURegisterId::A), reg2: Some(CPURegisterId::C) }),
        0xf3 => Some(Instruction { name: "DI", addr_mode: AddrMode::R_R, kind: InstrKind::Di, condition: None, reg1: None, reg2: None }),
        0xf5 => Some(Instruction { name: "PUSH", addr_mode: AddrMode::R16, kind: InstrKind::Push, condition: None, reg1: Some(CPURegisterId::AF), reg2: None }),
        0xf6 => Some(Instruction { name: "OR", addr_mode: AddrMode::R_IMM, kind: InstrKind::Or, condition: None, reg1: Some(CPURegisterId::A), reg2: None }),
        0xf7 => Some(Instruction { name: "RST", addr_mode: AddrMode::R_R, kind: InstrKind::Rst(0x30), condition: None, reg1: None, reg2: None }),
        0xf8 => Some(Instruction { name: "LD", addr_mode: AddrMode::R16_R16_IMM, kind: InstrKind::Ldr, condition: None, reg1: Some(CPURegisterId::HL), reg2: Some(CPURegisterId::SP) }),
        0xf9 => Some(Instruction { name: "LD", addr_mode: AddrMode::R16_R16, kind: InstrKind::Ldr, condition: None, reg1: Some(CPURegisterId::SP), reg2: Some(CPURegisterId::HL) }),
        0xfa => Some(Instruction { name: "LD", addr_mode: AddrMode::R_IMMADDR, kind: InstrKind::Ldr, condition: None, reg1: Some(CPURegisterId::A), reg2: None }),
        0xfb => Some(Instruction { name: "EI", addr_mode: AddrMode::R_R, kind: InstrKind::Ei, condition: None, reg1: None, reg2: None }),
        0xfe => Some(Instruction { name: "CP", addr_mode: AddrMode::R_IMM, kind: InstrKind::Cp, condition: None, reg1: Some(CPURegisterId::A), reg2: None }),
        0xff => Some(Instruction { name: "RST", addr_mode: AddrMode::R_R, kind: InstrKind::Rst(0x38), condition: None, reg1: None, reg2: None }),
        _ => None,
    }
}

/// Looks an opcode up (see `instruction_table`).
pub fn decode(op: u16) -> (r: Option<Instruction>)
    ensures
        r == instruction_table(op),
{
    if op >= 0x200 {
        None
    } else if op >= 0x100 {
        let cb = op - 0x100;
        let r = r8_of(cb % 8);
        let group = cb / 64;
        let b = ((cb / 8) % 8) as u8;
        if group == 0 {
            let g = (cb / 8) % 8;
            let (name, kind) = if g == 0 { ("RLC", InstrKind::Rlc) }
                else if g == 1 { ("RRC", InstrKind::Rrc) }
                else if g == 2 { ("RL", InstrKind::Rl) }
                else if g == 3 { ("RR", InstrKind::Rr) }
                else if g == 4 { ("SLA", InstrKind::Sla) }
                else if g == 5 { ("SRA", InstrKind::Sra) }
                else if g == 6 { ("SWAP", InstrKind::Swap) }
                else { ("SRL", InstrKind::Srl) };
            if r.is_none() {
                Some(Instruction { name, addr_mode: AddrMode::RADDR, kind, condition: None,
                    reg1: Some(CPURegisterId::HL), reg2: None })
            } else {
                Some(Instruction { name, addr_mode: AddrMode::R, kind, condition: None, reg1: r, reg2: None })
            }
        } else {
            let (name, kind) = if group == 1 {
                ("BIT", InstrKind::Bit(b))
            } else if group == 2 {
                ("RES", InstrKind::ResBit(b))
            } else {
                ("SET", InstrKind::SetBit(b))
            };
            if r.is_none() {
                Some(Instruction { name, addr_mode: AddrMode::IMM_RADDR, kind, condition: None,
                    reg1: None, reg2: Some(CPURegisterId::HL) })
            } else {
                Some(Instruction { name, addr_mode: AddrMode::IMM_R, kind, condition: None, reg1: None, reg2: r })
            }
        }
    } else if 0x40 <= op && op <= 0x7f && op != 0x76 {
        let dst = r8_of((op / 8) % 8);
        let src = r8_of(op % 8);
        if dst.is_none() {
            Some(Instruction { name: "LD", addr_mode: AddrMode::RADDR_R, kind: InstrKind::Ldm, condition: None,
                reg1: Some(CPURegisterId::HL), reg2: src })
        } else if src.is_none() {
            Some(Instruction { name: "LD", addr_mode: AddrMode::R_RADDR, kind: InstrKind::Ldr, condition: None,
                reg1: dst, reg2: Some(CPURegisterId::HL) })
        } else {
            Some(Instruction { name: "LD", addr_mode: AddrMode::R_R, kind: InstrKind::Ldr, condition: None,
                reg1: dst, reg2: src })
        }
    } else if 0x80 <= op && op <= 0xbf {
        let g = (op / 8) % 8;
        let (name, kind) = if g == 0 { ("ADD", InstrKind::Add) }
            else if g == 1 { ("ADC", InstrKind::Adc) }
            else if g == 2 { ("SUB", InstrKind::Sub) }
            else if g == 3 { ("SBC", InstrKind::Sbc) }
            else if g == 4 { ("AND", InstrKind::And) }
            else if g == 5 { ("XOR", InstrKind::Xor) }
            else if g == 6 { ("OR", InstrKind::Or) }
            else { ("CP", InstrKind::Cp) };
        let src = r8_of(op % 8);
        if src.is_none() {
            Some(Instruction { name, addr_mode: AddrMode::R_RADDR, kind, condition: None,
                reg1: Some(CPURegisterId::A), reg2: Some(CPURegisterId::HL) })
        } else {
            Some(Instruction { name, addr_mode: AddrMode::R_R, kind, condition: None,
                reg1: Some(CPURegisterId::A), reg2: src })
        }
    } else {
        decode_base(op)
    }
}

} // verus!
