use vstd::prelude::*;
use crate::bits::{lemma_u16_fields};
use crate::cpu::cpu::LR35902CPU;
use crate::cpu::instructions::AddrMode;
use crate::cpu::registers::{flag_arg, is_r8};

verus! {

/// The 16-bit sign extension of an 8-bit two's complement offset.
pub open spec fn sext8(b: u8) -> u16 {
    if b < 0x80 { b as u16 } else { (b + 0xff00) as u16 }
}

/// `sp` plus the signed offset `b` (wrapping), with H set on a carry out of
/// bit 3 and C on a carry out of bit 7 of the low byte.
pub open spec fn sp_offset(sp: u16, b: u8) -> (u16, bool, bool) {
    (((sp + sext8(b)) % 0x10000) as u16, sp % 16 + b % 16 > 15, sp % 256 + b > 255)
}

pub fn sp_offset_compute(sp: u16, b: u8) -> (r: (u16, bool, bool))
    ensures
        r == sp_offset(sp, b),
{
    let e: u16 = if b < 0x80 { b as u16 } else { b as u16 + 0xff00 };
    let r = ((sp as u32 + e as u32) % 0x10000) as u16;
    let x = sp ^ e ^ r;
    assert((x & 0x10 == 0x10) == (sp % 16 + b % 16 > 15) && (x & 0x100 == 0x100) == (sp % 256 + b > 255))
        by (bit_vector)
        requires
            e == (if b < 0x80 { b as u16 } else { (b + 0xff00) as u16 }),
            r == ((sp + e) % 0x10000) as u16,
            x == sp ^ e ^ r,
    ;
    (r, x & 0x10 == 0x10, x & 0x100 == 0x100)
}

impl LR35902CPU {
    /// Whether LD r, src can run: its registers have the right widths and what
    /// it reads can be read.
    #[verifier::opaque]
    pub open spec fn ldr_ok(self) -> bool {
        let i = self.current_instruction;
        &&& i.reg1 is Some
        &&& match self.mode() {
            AddrMode::R16_IMM16 => self.can_fetch16(),
            AddrMode::R_R => i.reg2 is Some && is_r8(self.r2()),
            AddrMode::R_IMM => self.can_fetch8(),
            AddrMode::R_RADDR => i.reg2 is Some && !is_r8(self.r2())
                && self.can_read(self.registers.reg16(self.r2())),
            AddrMode::R16_R16_IMM => i.reg2 is Some && !is_r8(self.r2()) && self.can_fetch8(),
            AddrMode::R_IMMADDR => self.can_fetch16() && self.can_read(self.imm16()),
            AddrMode::R16_R16 => i.reg2 is Some && !is_r8(self.r2()),
            _ => false,
        }
    }

    /// The value LD r, src loads.
    pub open spec fn ldr_value(self) -> u16 {
        match self.mode() {
            AddrMode::R16_IMM16 => self.imm16(),
            AddrMode::R_R => self.registers.reg8(self.r2()) as u16,
            AddrMode::R_IMM => self.imm8() as u16,
            AddrMode::R_RADDR => self.mem(self.registers.reg16(self.r2())) as u16,
            AddrMode::R16_R16_IMM => sp_offset(self.registers.reg16(self.r2()), self.imm8()).0,
            AddrMode::R_IMMADDR => self.mem(self.imm16()) as u16,
            _ => self.registers.reg16(self.r2()),
        }
    }

    /// The CPU after LD r, src has read its source: PC past the immediate
    /// bytes, and the H and C flags of SP + e8 set.
    pub open spec fn ldr_fetched(self) -> LR35902CPU {
        match self.mode() {
            AddrMode::R16_IMM16 | AddrMode::R_IMMADDR => self.adv(2),
            AddrMode::R_IMM => self.adv(1),
            AddrMode::R16_R16_IMM => {
                let (_, h, c) = sp_offset(self.registers.reg16(self.r2()), self.imm8());
                self.adv(1).with_flags(0, 0, flag_arg(h), flag_arg(c))
            },
            _ => self,
        }
    }

    /// The CPU after LD r, src.
    #[verifier::opaque]
    pub open spec fn after_ldr(self) -> LR35902CPU {
        self.ldr_fetched().with_reg(self.r1(), self.ldr_value())
    }

    #[verifier::opaque]
    pub open spec fn ldr_cycles(self) -> u8 {
        match self.mode() {
            AddrMode::R_R => 1,
            AddrMode::R16_R16_IMM => 3,
            AddrMode::R_IMMADDR => 4,
            _ => 2,
        }
    }

    /// Whether LD (dst), r can run.
    #[verifier::opaque]
    pub open spec fn ldm_ok(self) -> bool {
        let i = self.current_instruction;
        match self.mode() {
            AddrMode::RADDR_R => i.reg1 is Some && !is_r8(self.r1()) && i.reg2 is Some && is_r8(self.r2()),
            AddrMode::IMMADDR_R => i.reg2 is Some && is_r8(self.r2()) && self.can_fetch16(),
            AddrMode::IMMADDR_R16 => i.reg2 is Some && !is_r8(self.r2()) && self.can_fetch16()
                && self.imm16() < 0xffff,
            AddrMode::RADDR_IMM => i.reg1 is Some && !is_r8(self.r1()) && self.can_fetch8(),
            _ => false,
        }
    }

    /// The CPU after LD (dst), src.
    #[verifier::opaque]
    pub open spec fn after_ldm(self) -> LR35902CPU {
        let regs = self.registers;
        match self.mode() {
            AddrMode::RADDR_R => self.with_write(regs.reg16(self.r1()), regs.reg8(self.r2())),
            AddrMode::IMMADDR_R => self.adv(2).with_write(self.imm16(), regs.reg8(self.r2())),
            AddrMode::IMMADDR_R16 => {
                let v = regs.reg16(self.r2());
                self.adv(2).with_write((self.imm16() + 1) as u16, (v / 256) as u8)
                    .with_write(self.imm16(), (v % 256) as u8)
            },
            _ => self.adv(1).with_write(regs.reg16(self.r1()), self.imm8()),
        }
    }

    #[verifier::opaque]
    pub open spec fn ldm_cycles(self) -> u8 {
        match self.mode() {
            AddrMode::RADDR_R => 2,
            AddrMode::IMMADDR_R => 4,
            AddrMode::IMMADDR_R16 => 5,
            _ => 3,
        }
    }

    /// Whether LDH can run: (0xFF00 + n) or (0xFF00 + C) from or to A.
    #[verifier::opaque]
    pub open spec fn ldh_ok(self) -> bool {
        let i = self.current_instruction;
        match self.mode() {
            AddrMode::IMM_R => i.reg2 is Some && is_r8(self.r2()) && self.can_fetch8(),
            AddrMode::RADDR_R => i.reg1 is Some && is_r8(self.r1()) && i.reg2 is Some && is_r8(self.r2()),
            AddrMode::R_IMMADDR => i.reg1 is Some && self.can_fetch8()
                && self.can_read((0xff00 + self.imm8()) as u16),
            _ => i.reg1 is Some && i.reg2 is Some && is_r8(self.r2())
                && self.can_read((0xff00 + self.registers.reg8(self.r2())) as u16),
        }
    }

    /// The CPU after LDH.
    #[verifier::opaque]
    pub open spec fn after_ldh(self) -> LR35902CPU {
        let regs = self.registers;
        match self.mode() {
            AddrMode::IMM_R => self.adv(1).with_write((0xff00 + self.imm8()) as u16, regs.reg8(self.r2())),
            AddrMode::RADDR_R => self.with_write((0xff00 + regs.reg8(self.r1())) as u16, regs.reg8(self.r2())),
            AddrMode::R_IMMADDR => self.adv(1).with_reg(self.r1(), self.mem((0xff00 + self.imm8()) as u16) as u16),
            _ => self.with_reg(self.r1(), self.mem((0xff00 + regs.reg8(self.r2())) as u16) as u16),
        }
    }

    #[verifier::opaque]
    pub open spec fn ldh_cycles(self) -> u8 {
        match self.mode() {
            AddrMode::IMM_R | AddrMode::R_IMMADDR => 3,
            _ => 2,
        }
    }

    /// Whether LDI / LDD can run: (HL) from A, or A from (HL), with HL moved by
    /// `step` (+1 or -1) not leaving 0..=0xFFFF.
    #[verifier::opaque]
    pub open spec fn ld_step_ok(self, inc: bool) -> bool {
        let i = self.current_instruction;
        &&& i.reg1 is Some
        &&& i.reg2 is Some
        &&& if self.mode() == AddrMode::RADDR_R {
            let hl = self.registers.reg16(self.r1());
            &&& !is_r8(self.r1())
            &&& is_r8(self.r2())
            &&& if inc { hl < 0xffff } else { hl > 0 }
        } else {
            let hl = self.registers.reg16(self.r2());
            &&& !is_r8(self.r2())
            &&& if inc { hl < 0xffff } else { hl > 0 }
            &&& self.can_read(hl)
        }
    }

    /// The CPU after LDI (`inc`) or LDD.
    #[verifier::opaque]
    pub open spec fn after_ld_step(self, inc: bool) -> LR35902CPU {
        if self.mode() == AddrMode::RADDR_R {
            let hl = self.registers.reg16(self.r1());
            let moved = (if inc { hl + 1 } else { hl - 1 }) as u16;
            let c = self.with_reg(self.r1(), moved);
            c.with_write(hl, c.registers.reg8(self.r2()))
        } else {
            let hl = self.registers.reg16(self.r2());
            let moved = (if inc { hl + 1 } else { hl - 1 }) as u16;
            self.with_reg(self.r2(), moved).with_reg(self.r1(), self.mem(hl) as u16)
        }
    }
}

/// Reads the source of LD r, src.
fn ldr_source(cpu: &mut LR35902CPU) -> (r: u16)
    requires
        old(cpu).wf(),
        old(cpu).ldr_ok(),
    ensures
        final(cpu).wf(),
        *final(cpu) == old(cpu).ldr_fetched(),
        r == old(cpu).ldr_value(),
{
    proof {
        reveal(LR35902CPU::ldr_ok);
    }
    let instr = cpu.current_instruction;
    match instr.addr_mode {
        AddrMode::R16_IMM16 => cpu.fetch16(),
        AddrMode::R_R => cpu.get_register(instr.reg2.as_ref().unwrap()) as u16,
        AddrMode::R_IMM => cpu.fetch8() as u16,
        AddrMode::R_RADDR => {
            let addr = cpu.get_register16(instr.reg2.as_ref().unwrap());
            cpu.read(addr) as u16
        },
        AddrMode::R16_R16_IMM => {
            let sp = cpu.get_register16(instr.reg2.as_ref().unwrap());
            let offset = cpu.fetch8();
            let (v, h, c) = sp_offset_compute(sp, offset);
            cpu.set_flags(0, 0, if h { 1 } else { 0 }, if c { 1 } else { 0 });
            v
        },
        AddrMode::R_IMMADDR => {
            let addr = cpu.fetch16();
            cpu.read(addr) as u16
        },
        _ => cpu.get_register16(instr.reg2.as_ref().unwrap()),
    }
}

/// LD r, src: a register from another register, an immediate, memory or
/// SP plus a signed immediate.
pub fn ldr(cpu: &mut LR35902CPU) -> (cycles: u8)
    requires
        old(cpu).wf(),
        old(cpu).ldr_ok(),
    ensures
        final(cpu).wf(),
        *final(cpu) == old(cpu).after_ldr(),
        cycles == old(cpu).ldr_cycles(),
{
    proof {
        reveal(LR35902CPU::ldr_ok);
        reveal(LR35902CPU::after_ldr);
        reveal(LR35902CPU::ldr_cycles);
    }
    let instr = cpu.current_instruction;
    let value = ldr_source(cpu);
    cpu.set_register(instr.reg1.as_ref().unwrap(), value);
    match instr.addr_mode {
        AddrMode::R_R => 1,
        AddrMode::R16_R16_IMM => 3,
        AddrMode::R_IMMADDR => 4,
        _ => 2,
    }
}

/// LD (nn), SP: the low byte at nn, the high byte at nn + 1.
fn ld_word_to_imm(cpu: &mut LR35902CPU)
    requires
        old(cpu).wf(),
        old(cpu).mode() == AddrMode::IMMADDR_R16,
        old(cpu).ldm_ok(),
    ensures
        final(cpu).wf(),
        *final(cpu) == old(cpu).after_ldm(),
{
    proof {
        reveal(LR35902CPU::ldm_ok);
        reveal(LR35902CPU::after_ldm);
    }
    let instr = cpu.current_instruction;
    let reg = cpu.get_register16(instr.reg2.as_ref().unwrap());
    let addr = cpu.fetch16();
    assert(reg >> 8u16 == reg / 256 && reg & 0xff == reg % 256) by { lemma_u16_fields(reg); }
    let hi = (reg >> 8) as u8;
    let lo = (reg & 0xff) as u8;
    cpu.write(addr + 1, hi);
    cpu.write(addr, lo);
}

/// LD (dst), src: a byte (or SP, as two bytes) to memory.
pub fn ldm(cpu: &mut LR35902CPU) -> (cycles: u8)
    requires
        old(cpu).wf(),
        old(cpu).ldm_ok(),
    ensures
        final(cpu).wf(),
        *final(cpu) == old(cpu).after_ldm(),
        cycles == old(cpu).ldm_cycles(),
{
    proof {
        reveal(LR35902CPU::ldm_ok);
        reveal(LR35902CPU::after_ldm);
        reveal(LR35902CPU::ldm_cycles);
    }
    let instr = cpu.current_instruction;
    match instr.addr_mode {
        AddrMode::RADDR_R => {
            let value = cpu.get_register(instr.reg2.as_ref().unwrap());
            let addr = cpu.get_register16(instr.reg1.as_ref().unwrap());
            cpu.write(addr, value);
            2
        },
        AddrMode::IMMADDR_R => {
            let value = cpu.get_register(instr.reg2.as_ref().unwrap());
            let addr = cpu.fetch16();
            cpu.write(addr, value);
            4
        },
        AddrMode::IMMADDR_R16 => {
            ld_word_to_imm(cpu);
            5
        },
        _ => {
            let addr = cpu.get_register16(instr.reg1.as_ref().unwrap());
            let value = cpu.fetch8();
            cpu.write(addr, value);
            3
        },
    }
}

/// LDH: between A and the high page 0xFF00 + n (immediate) or 0xFF00 + C.
pub fn ldh(cpu: &mut LR35902CPU) -> (cycles: u8)
    requires
        old(cpu).wf(),
        old(cpu).ldh_ok(),
    ensures
        final(cpu).wf(),
        *final(cpu) == old(cpu).after_ldh(),
        cycles == old(cpu).ldh_cycles(),
{
    proof {
        reveal(LR35902CPU::ldh_ok);
        reveal(LR35902CPU::after_ldh);
        reveal(LR35902CPU::ldh_cycles);
    }
    let instr = cpu.current_instruction;
    let mut cycles: u8 = 3;
    if matches!(instr.addr_mode, AddrMode::IMM_R) || matches!(instr.addr_mode, AddrMode::RADDR_R) {
        let mut addr: u16 = 0xff00;
        if matches!(instr.addr_mode, AddrMode::IMM_R) {
            addr = addr + cpu.fetch8() as u16;
        } else {
            addr = addr + cpu.get_register(instr.reg1.as_ref().unwrap()) as u16;
            cycles = 2;
        }
        let v = cpu.get_register(instr.reg2.as_ref().unwrap());
        cpu.write(addr, v);
    } else {
        let value: u16;
        if matches!(instr.addr_mode, AddrMode::R_IMMADDR) {
            let addr = cpu.fetch8() as u16;
            value = cpu.read(0xff00 + addr) as u16;
        } else {
            let reg = cpu.get_register(instr.reg2.as_ref().unwrap()) as u16;
            value = cpu.read(0xff00 + reg) as u16;
            cycles = 2;
        }
        cpu.set_register(instr.reg1.as_ref().unwrap(), value);
    }
    cycles
}

/// LD (HL+), A or LD A, (HL+) when `inc`, else the (HL-) forms.
fn ld_step(cpu: &mut LR35902CPU, inc: bool) -> (cycles: u8)
    requires
        old(cpu).wf(),
        old(cpu).ld_step_ok(inc),
    ensures
        final(cpu).wf(),
        *final(cpu) == old(cpu).after_ld_step(inc),
        cycles == 2,
{
    proof {
        reveal(LR35902CPU::ld_step_ok);
        reveal(LR35902CPU::after_ld_step);
    }
    let instr = cpu.current_instruction;
    if matches!(instr.addr_mode, AddrMode::RADDR_R) {
        let reg1 = instr.reg1.unwrap();
        let hl = cpu.get_register16(&reg1);
        cpu.set_register(&reg1, if inc { hl + 1 } else { hl - 1 });
        let v = cpu.get_register(instr.reg2.as_ref().unwrap());
        cpu.write(hl, v);
    } else {
        let reg2 = instr.reg2.unwrap();
        let hl = cpu.get_register16(&reg2);
        cpu.set_register(&reg2, if inc { hl + 1 } else { hl - 1 });
        let value = cpu.read(hl);
        cpu.set_register(instr.reg1.as_ref().unwrap(), value as u16);
    }
    2
}

/// LD (HL+), A / LD A, (HL+): the transfer, then HL incremented.
pub fn ldi(cpu: &mut LR35902CPU) -> (cycles: u8)
    requires
        old(cpu).wf(),
        old(cpu).ld_step_ok(true),
    ensures
        final(cpu).wf(),
        *final(cpu) == old(cpu).after_ld_step(true),
        cycles == 2,
{
    proof {
        reveal(LR35902CPU::ld_step_ok);
        reveal(LR35902CPU::after_ld_step);
    }
    ld_step(cpu, true)
}

/// LD (HL-), A / LD A, (HL-): the transfer, then HL decremented.
pub fn ldd(cpu: &mut LR35902CPU) -> (cycles: u8)
    requires
        old(cpu).wf(),
        old(cpu).ld_step_ok(false),
    ensures
        final(cpu).wf(),
        *final(cpu) == old(cpu).after_ld_step(false),
        cycles == 2,
{
    proof {
        reveal(LR35902CPU::ld_step_ok);
        reveal(LR35902CPU::after_ld_step);
    }
    ld_step(cpu, false)
}

/// Whether LD r, src can run (see `ldr_ok`).
pub fn ldr_check(cpu: &LR35902CPU) -> (r: bool)
    requires
        cpu.wf(),
    ensures
        r == cpu.ldr_ok(),
{
    proof {
        reveal(LR35902CPU::ldr_ok);
    }
    let i = cpu.current_instruction;
    if i.reg1.is_none() {
        return false;
    }
    match i.addr_mode {
        AddrMode::R16_IMM16 => cpu.fetchable16(),
        AddrMode::R_R => match i.reg2 {
            Some(r) => !r.is_16bit(),
            None => false,
        },
        AddrMode::R_IMM => cpu.fetchable8(),
        AddrMode::R_RADDR => match i.reg2 {
            Some(r) => r.is_16bit() && cpu.readable(cpu.get_register16(&r)),
            None => false,
        },
        AddrMode::R16_R16_IMM => match i.reg2 {
            Some(r) => r.is_16bit() && cpu.fetchable8(),
            None => false,
        },
        AddrMode::R_IMMADDR => cpu.fetchable16() && cpu.readable(cpu.read16(cpu.pc())),
        AddrMode::R16_R16 => match i.reg2 {
            Some(r) => r.is_16bit(),
            None => false,
        },
        _ => false,
    }
}

/// Whether LD (dst), src can run (see `ldm_ok`).
pub fn ldm_check(cpu: &LR35902CPU) -> (r: bool)
    requires
        cpu.wf(),
    ensures
        r == cpu.ldm_ok(),
{
    proof {
        reveal(LR35902CPU::ldm_ok);
    }
    let i = cpu.current_instruction;
    let r1_pair = match i.reg1 {
        Some(r) => r.is_16bit(),
        None => false,
    };
    let r2_byte = match i.reg2 {
        Some(r) => !r.is_16bit(),
        None => false,
    };
    let r2_pair = match i.reg2 {
        Some(r) => r.is_16bit(),
        None => false,
    };
    match i.addr_mode {
        AddrMode::RADDR_R => r1_pair && r2_byte,
        AddrMode::IMMADDR_R => r2_byte && cpu.fetchable16(),
        AddrMode::IMMADDR_R16 => r2_pair && cpu.fetchable16() && cpu.read16(cpu.pc()) < 0xffff,
        AddrMode::RADDR_IMM => r1_pair && cpu.fetchable8(),
        _ => false,
    }
}

/// Whether LDH can run (see `ldh_ok`).
pub fn ldh_check(cpu: &LR35902CPU) -> (r: bool)
    requires
        cpu.wf(),
    ensures
        r == cpu.ldh_ok(),
{
    proof {
        reveal(LR35902CPU::ldh_ok);
    }
    let i = cpu.current_instruction;
    let r1_byte = match i.reg1 {
        Some(r) => !r.is_16bit(),
        None => false,
    };
    let r2_byte = match i.reg2 {
        Some(r) => !r.is_16bit(),
        None => false,
    };
    match i.addr_mode {
        AddrMode::IMM_R => r2_byte && cpu.fetchable8(),
        AddrMode::RADDR_R => r1_byte && r2_byte,
        AddrMode::R_IMMADDR => i.reg1.is_some() && cpu.fetchable8()
            && cpu.readable(0xff00 + cpu.read(cpu.pc()) as u16),
        _ => i.reg1.is_some() && r2_byte
            && cpu.readable(0xff00 + cpu.get_register(i.reg2.as_ref().unwrap()) as u16),
    }
}

/// Whether LDI (`inc`) or LDD can run (see `ld_step_ok`).
pub fn ld_step_check(cpu: &LR35902CPU, inc: bool) -> (r: bool)
    requires
        cpu.wf(),
    ensures
        r == cpu.ld_step_ok(inc),
{
    proof {
        reveal(LR35902CPU::ld_step_ok);
    }
    let i = cpu.current_instruction;
    match (i.reg1, i.reg2) {
        (Some(r1), Some(r2)) => {
            if matches!(i.addr_mode, AddrMode::RADDR_R) {
                r1.is_16bit() && !r2.is_16bit() && {
                    let hl = cpu.get_register16(&r1);
                    if inc { hl < 0xffff } else { hl > 0 }
                }
            } else {
                r2.is_16bit() && {
                    let hl = cpu.get_register16(&r2);
                    (if inc { hl < 0xffff } else { hl > 0 }) && cpu.readable(hl)
                }
            }
        },
        _ => false,
    }
}

} // verus!
