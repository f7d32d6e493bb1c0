use vstd::prelude::*;
use crate::cpu::cpu::LR35902CPU;
use crate::cpu::instructions::{AddrMode, CondType};
use crate::cpu::instructions::stack::{lemma_push_pop, pop16, push16};
use crate::mem::bus::bus_ram_byte;
use crate::cpu::registers::{is_r8, CPURegisterId, CPURegisters, FLAG_C, FLAG_Z};

verus! {

/// Whether condition `cond` holds for the flags in `r` (no condition always holds).
pub open spec fn cond_holds(r: CPURegisters, cond: Option<CondType>) -> bool {
    match cond {
        None => true,
        Some(CondType::Nz) => r.flag(FLAG_Z) == 0,
        Some(CondType::Z) => r.flag(FLAG_Z) == 1,
        Some(CondType::Nc) => r.flag(FLAG_C) == 0,
        Some(CondType::C) => r.flag(FLAG_C) == 1,
    }
}

/// The value of an 8-bit two's complement offset.
pub open spec fn signed8(b: u8) -> int {
    if b < 0x80 { b as int } else { b - 256 }
}

impl LR35902CPU {
    /// Whether the current instruction's condition holds.
    pub open spec fn taken(self) -> bool {
        cond_holds(self.registers, self.current_instruction.condition)
    }

    /// The target of JR: the address after the offset byte plus the offset.
    pub open spec fn jr_target(self) -> int {
        self.registers.pc + 1 + signed8(self.imm8())
    }

    /// Whether JR can run: the offset can be skipped, and when taken it can be
    /// read and the target is an address.
    #[verifier::opaque]
    pub open spec fn jr_ok(self) -> bool {
        &&& self.registers.pc < 0xffff
        &&& self.taken() ==> self.can_read(self.registers.pc) && 0 <= self.jr_target() <= 0xffff
    }

    /// The CPU after JR.
    #[verifier::opaque]
    pub open spec fn after_jr(self) -> LR35902CPU {
        if self.taken() { self.with_pc(self.jr_target() as u16) } else { self.adv(1) }
    }

    /// Whether JP can run: JP (HL), or JP nn with its operand readable.
    #[verifier::opaque]
    pub open spec fn jp_ok(self) -> bool {
        match self.mode() {
            AddrMode::R16 => self.current_instruction.reg1 is Some && !is_r8(self.r1()),
            AddrMode::IMMADDR => self.can_fetch16(),
            _ => false,
        }
    }

    /// The CPU after JP.
    #[verifier::opaque]
    pub open spec fn after_jp(self) -> LR35902CPU {
        if !self.taken() {
            if self.mode() == AddrMode::IMMADDR { self.adv(2) } else { self }
        } else if self.mode() == AddrMode::R16 {
            self.with_pc(self.registers.reg16(self.r1()))
        } else {
            self.with_pc(self.imm16())
        }
    }

    #[verifier::opaque]
    pub open spec fn jp_cycles(self) -> u8 {
        if self.mode() == AddrMode::R16 { 1 } else if self.taken() { 4 } else { 3 }
    }

    /// Whether CALL nn can run: PC + 2 is an address, the return address can
    /// be pushed, and the target can be read once it is.
    #[verifier::opaque]
    pub open spec fn call_ok(self) -> bool {
        let pc = self.registers.pc;
        &&& pc <= 0xfffd
        &&& self.taken() ==> {
            &&& self.registers.sp >= 2
            &&& self.after_push16((pc + 2) as u16).can_read16(pc)
        }
    }

    /// The CPU after CALL nn: the address after the operand pushed, PC the
    /// operand (read after the push).
    #[verifier::opaque]
    pub open spec fn after_call(self) -> LR35902CPU {
        let pc = self.registers.pc;
        if self.taken() {
            let pushed = self.after_push16((pc + 2) as u16);
            pushed.with_pc(pushed.mem16(pc))
        } else {
            self.adv(2)
        }
    }

    /// Whether RET can run.
    #[verifier::opaque]
    pub open spec fn ret_ok(self) -> bool {
        self.taken() ==> self.can_pop16()
    }

    /// The CPU after RET: PC popped when the condition holds.
    #[verifier::opaque]
    pub open spec fn after_ret(self) -> LR35902CPU {
        if self.taken() {
            self.with_sp((self.registers.sp + 2) as u16).with_pc(self.top16())
        } else {
            self
        }
    }

    #[verifier::opaque]
    pub open spec fn ret_cycles(self) -> u8 {
        if !self.taken() { 2 } else if self.current_instruction.condition is None { 4 } else { 5 }
    }

    /// The CPU after RETI: PC popped, interrupts enabled after the next
    /// instruction.
    #[verifier::opaque]
    pub open spec fn after_reti(self) -> LR35902CPU {
        let c = LR35902CPU { enabling_ints: true, ..self };
        c.with_sp((self.registers.sp + 2) as u16).with_pc(self.top16())
    }

    /// The CPU after RST: PC pushed, PC set to `addr`.
    #[verifier::opaque]
    pub open spec fn after_rst(self, addr: u8) -> LR35902CPU {
        self.after_push16(self.registers.pc).with_pc(addr as u16)
    }
}

/// Whether condition `cond` holds.
pub fn check_cond(cpu: &LR35902CPU, cond: Option<CondType>) -> (r: bool)
    ensures
        r == cond_holds(cpu.registers, cond),
{
    match cond {
        None => true,
        Some(c) => {
            let z = cpu.get_flag(FLAG_Z);
            let cy = cpu.get_flag(FLAG_C);
            match c {
                CondType::Nz => z == 0,
                CondType::Z => z == 1,
                CondType::Nc => cy == 0,
                CondType::C => cy == 1,
            }
        },
    }
}

/// JR [cc], e8: relative jump.
pub fn jr(cpu: &mut LR35902CPU) -> (cycles: u8)
    requires
        old(cpu).wf(),
        old(cpu).jr_ok(),
    ensures
        final(cpu).wf(),
        *final(cpu) == old(cpu).after_jr(),
        cycles == (if old(cpu).taken() { 3u8 } else { 2u8 }),
{
    proof {
        reveal(LR35902CPU::jr_ok);
        reveal(LR35902CPU::after_jr);
    }
    let instr = cpu.current_instruction;
    if !check_cond(cpu, instr.condition) {
        cpu.inc_pc(1);
        return 2;
    }
    let pc = cpu.pc();
    let offset = cpu.read(pc);
    let target: u16 = if offset < 0x80 {
        pc + 1 + offset as u16
    } else {
        pc + 1 - (256 - offset as u16)
    };
    cpu.set_register(&CPURegisterId::PC, target);
    3
}

/// JP [cc], nn or JP (HL).
pub fn jp(cpu: &mut LR35902CPU) -> (cycles: u8)
    requires
        old(cpu).wf(),
        old(cpu).jp_ok(),
    ensures
        final(cpu).wf(),
        *final(cpu) == old(cpu).after_jp(),
        cycles == old(cpu).jp_cycles(),
{
    proof {
        reveal(LR35902CPU::jp_ok);
        reveal(LR35902CPU::after_jp);
        reveal(LR35902CPU::jp_cycles);
    }
    let instr = cpu.current_instruction;
    if !check_cond(cpu, instr.condition) {
        if matches!(instr.addr_mode, AddrMode::IMMADDR) {
            cpu.inc_pc(2);
            return 3;
        }
        return 1;
    }
    match instr.addr_mode {
        AddrMode::R16 => {
            let pc = cpu.get_register16(instr.reg1.as_ref().unwrap());
            cpu.set_register(&CPURegisterId::PC, pc);
            1
        },
        _ => {
            let pc = cpu.read16(cpu.pc());
            cpu.set_register(&CPURegisterId::PC, pc);
            4
        },
    }
}

/// CALL [cc], nn.
pub fn call(cpu: &mut LR35902CPU) -> (cycles: u8)
    requires
        old(cpu).wf(),
        old(cpu).call_ok(),
    ensures
        final(cpu).wf(),
        *final(cpu) == old(cpu).after_call(),
        cycles == (if old(cpu).taken() { 6u8 } else { 3u8 }),
{
    proof {
        reveal(LR35902CPU::call_ok);
        reveal(LR35902CPU::after_call);
    }
    let instr = cpu.current_instruction;
    if !check_cond(cpu, instr.condition) {
        cpu.inc_pc(2);
        return 3;
    }
    let pc = cpu.pc();
    push16(cpu, pc + 2);
    let target = cpu.read16(pc);
    cpu.set_register(&CPURegisterId::PC, target);
    6
}

/// RET [cc].
pub fn ret(cpu: &mut LR35902CPU) -> (cycles: u8)
    requires
        old(cpu).wf(),
        old(cpu).ret_ok(),
    ensures
        final(cpu).wf(),
        *final(cpu) == old(cpu).after_ret(),
        cycles == old(cpu).ret_cycles(),
{
    proof {
        reveal(LR35902CPU::ret_ok);
        reveal(LR35902CPU::after_ret);
        reveal(LR35902CPU::ret_cycles);
    }
    let instr = cpu.current_instruction;
    if !check_cond(cpu, instr.condition) {
        return 2;
    }
    let pc = pop16(cpu);
    cpu.set_register(&CPURegisterId::PC, pc);
    if instr.condition.is_none() { 4 } else { 5 }
}

/// RETI: RET, and interrupts enabled after the next instruction.
pub fn reti(cpu: &mut LR35902CPU) -> (cycles: u8)
    requires
        old(cpu).wf(),
        old(cpu).can_pop16(),
    ensures
        final(cpu).wf(),
        *final(cpu) == old(cpu).after_reti(),
        cycles == 4,
{
    proof {
        reveal(LR35902CPU::after_reti);
    }
    cpu.enabling_ints = true;
    proof { reveal(LR35902CPU::wf); }
    let pc = pop16(cpu);
    cpu.set_register(&CPURegisterId::PC, pc);
    4
}

/// RST: call the fixed address `addr`.
pub fn rst(cpu: &mut LR35902CPU, addr: u8) -> (cycles: u8)
    requires
        old(cpu).wf(),
        old(cpu).registers.sp >= 2,
    ensures
        final(cpu).wf(),
        *final(cpu) == old(cpu).after_rst(addr),
        cycles == 4,
{
    proof {
        reveal(LR35902CPU::after_rst);
    }
    let pc = cpu.pc();
    push16(cpu, pc);
    cpu.set_register(&CPURegisterId::PC, addr as u16);
    4
}

/// Whether JR can run (see `jr_ok`).
pub fn jr_check(cpu: &LR35902CPU) -> (r: bool)
    requires
        cpu.wf(),
    ensures
        r == cpu.jr_ok(),
{
    proof {
        reveal(LR35902CPU::jr_ok);
    }
    let pc = cpu.pc();
    if pc == 0xffff {
        return false;
    }
    if !check_cond(cpu, cpu.current_instruction.condition) {
        return true;
    }
    if !cpu.readable(pc) {
        return false;
    }
    let b = cpu.read(pc);
    if b < 0x80 { pc as u32 + 1 + b as u32 <= 0xffff } else { pc as u32 + 1 + b as u32 >= 256 }
}

/// Whether JP can run (see `jp_ok`).
pub fn jp_check(cpu: &LR35902CPU) -> (r: bool)
    requires
        cpu.wf(),
    ensures
        r == cpu.jp_ok(),
{
    proof {
        reveal(LR35902CPU::jp_ok);
    }
    match cpu.current_instruction.addr_mode {
        AddrMode::R16 => match cpu.current_instruction.reg1 {
            Some(r) => r.is_16bit(),
            None => false,
        },
        AddrMode::IMMADDR => cpu.fetchable16(),
        _ => false,
    }
}

/// Whether RET can run (see `ret_ok`).
pub fn ret_check(cpu: &LR35902CPU) -> (r: bool)
    requires
        cpu.wf(),
    ensures
        r == cpu.ret_ok(),
{
    proof {
        reveal(LR35902CPU::ret_ok);
    }
    !check_cond(cpu, cpu.current_instruction.condition) || crate::cpu::instructions::stack::pop16_check(cpu)
}

/// CALL returns to the instruction after it: after a taken CALL nn whose
/// return address lands in RAM, two bytes can be popped, the word on top of
/// the stack (the one RET loads into PC) is the address past the CALL's
/// operand, and SP is two below where it was.
pub proof fn lemma_call_ret(c: LR35902CPU)
    requires
        c.wf(),
        c.call_ok(),
        c.taken(),
        bus_ram_byte((c.registers.sp - 2) as u16),
        bus_ram_byte((c.registers.sp - 1) as u16),
    ensures
        c.after_call().can_pop16(),
        c.after_call().top16() == c.registers.pc + 2,
        c.after_call().registers.sp + 2 == c.registers.sp,
{
    reveal(LR35902CPU::call_ok);
    reveal(LR35902CPU::after_call);
    lemma_push_pop(c, (c.registers.pc + 2) as u16);
}

/// RST returns to the instruction after it: when the two bytes below SP are
/// RAM, after RST the word on top of the stack is the address of the next
/// instruction and PC is the restart address.
pub proof fn lemma_rst_ret(c: LR35902CPU, addr: u8)
    requires
        c.wf(),
        c.registers.sp >= 2,
        bus_ram_byte((c.registers.sp - 2) as u16),
        bus_ram_byte((c.registers.sp - 1) as u16),
    ensures
        c.after_rst(addr).can_pop16(),
        c.after_rst(addr).top16() == c.registers.pc,
        c.after_rst(addr).registers.pc == addr,
{
    reveal(LR35902CPU::after_rst);
    lemma_push_pop(c, c.registers.pc);
}

} // verus!
