use vstd::prelude::*;
use crate::cpu::cpu::LR35902CPU;
use crate::cpu::instructions::{AddrMode, InstrKind};
use crate::cpu::registers::{CPURegisterId, FLAG_C};
use crate::cpu::instructions::arithmetic::{add_check, incdec_check, operand8_check, is_alu8, adc, and, cp, dec, inc, or, sbc, xor};
use crate::cpu::instructions::bit::{
    bit_op_check, shift_check, is_shift,
    bit, res, rl, rla, rlc, rlca, rr, rra, rrc, rrca, sla, sra, srl, swap,
};
use crate::cpu::instructions::control::{call, check_cond, jp, jp_check, jr, jr_check, ret, ret_check, reti, rst};
use crate::cpu::instructions::ld::{ld_step_check, ldd, ldh, ldh_check, ldi, ldm, ldm_check, ldr, ldr_check};
use crate::cpu::instructions::misc::{ccf, cpl, daa, di, ei, halt, scf, stop};
use crate::cpu::instructions::stack::{pop, pop16_check, pop_check, push, push16, push_check};

verus! {

impl LR35902CPU {
    /// Whether the current instruction can run: its operands have the widths
    /// its operation needs, what it reads can be read, and no address or
    /// stack pointer leaves 0..=0xFFFF.
    pub open spec fn exec_ok(self) -> bool {
        match self.current_instruction.kind {
            InstrKind::Nop | InstrKind::Rlca | InstrKind::Rrca | InstrKind::Rla | InstrKind::Rra
            | InstrKind::Daa | InstrKind::Cpl | InstrKind::Scf | InstrKind::Ccf | InstrKind::Halt
            | InstrKind::Stop | InstrKind::Di | InstrKind::Ei => true,
            InstrKind::Ldr => self.ldr_ok(),
            InstrKind::Ldm => self.ldm_ok(),
            InstrKind::Ldh => self.ldh_ok(),
            InstrKind::Ldi => self.ld_step_ok(true),
            InstrKind::Ldd => self.ld_step_ok(false),
            InstrKind::Inc | InstrKind::Dec => self.incdec_ok(),
            InstrKind::Add => self.add_ok(),
            InstrKind::Adc | InstrKind::Sub | InstrKind::Sbc | InstrKind::And | InstrKind::Xor
            | InstrKind::Or | InstrKind::Cp => self.operand8_ok(),
            InstrKind::Jr => self.jr_ok(),
            InstrKind::Jp => self.jp_ok(),
            InstrKind::Call => self.call_ok(),
            InstrKind::Ret => self.ret_ok(),
            InstrKind::Reti => self.can_pop16(),
            InstrKind::Rst(_) => self.registers.sp >= 2,
            InstrKind::Push => self.push_ok(),
            InstrKind::Pop => self.pop_ok(),
            InstrKind::Rlc | InstrKind::Rrc | InstrKind::Rl | InstrKind::Rr | InstrKind::Sla
            | InstrKind::Sra | InstrKind::Swap | InstrKind::Srl => self.shift_ok(),
            InstrKind::Bit(b) | InstrKind::ResBit(b) | InstrKind::SetBit(b) => self.bit_op_ok(b),
        }
    }

    /// The CPU after the current instruction runs.
    #[verifier::opaque]
    pub open spec fn after_execute(self) -> LR35902CPU {
        match self.current_instruction.kind {
            InstrKind::Nop => self,
            InstrKind::Ldr => self.after_ldr(),
            InstrKind::Ldm => self.after_ldm(),
            InstrKind::Ldh => self.after_ldh(),
            InstrKind::Ldi => self.after_ld_step(true),
            InstrKind::Ldd => self.after_ld_step(false),
            InstrKind::Inc => self.after_incdec(true),
            InstrKind::Dec => self.after_incdec(false),
            InstrKind::Add => self.after_add(),
            InstrKind::Adc | InstrKind::Sub | InstrKind::Sbc | InstrKind::And | InstrKind::Xor
            | InstrKind::Or | InstrKind::Cp => self.after_alu8(self.current_instruction.kind),
            InstrKind::Rlca => self.after_rotate_a(InstrKind::Rlc),
            InstrKind::Rrca => self.after_rotate_a(InstrKind::Rrc),
            InstrKind::Rla => self.after_rotate_a(InstrKind::Rl),
            InstrKind::Rra => self.after_rotate_a(InstrKind::Rr),
            InstrKind::Daa => self.after_daa(),
            InstrKind::Cpl => self.after_cpl(),
            InstrKind::Scf => self.after_scf(),
            InstrKind::Ccf => self.after_ccf(),
            InstrKind::Halt | InstrKind::Stop => LR35902CPU { halt: true, ..self },
            InstrKind::Jr => self.after_jr(),
            InstrKind::Jp => self.after_jp(),
            InstrKind::Call => self.after_call(),
            InstrKind::Ret => self.after_ret(),
            InstrKind::Reti => self.after_reti(),
            InstrKind::Rst(a) => self.after_rst(a),
            InstrKind::Push => self.after_push16(self.push_value()),
            InstrKind::Pop => self.after_pop(),
            InstrKind::Di => LR35902CPU { int_master: false, ..self },
            InstrKind::Ei => LR35902CPU { enabling_ints: true, halt: false, ..self },
            InstrKind::Rlc | InstrKind::Rrc | InstrKind::Rl | InstrKind::Rr | InstrKind::Sla
            | InstrKind::Sra | InstrKind::Swap | InstrKind::Srl => self.after_shift(self.current_instruction.kind),
            InstrKind::Bit(b) => self.after_bit(b),
            InstrKind::ResBit(b) => self.after_res_set(b, false),
            InstrKind::SetBit(b) => self.after_res_set(b, true),
        }
    }

    /// The M-cycles the current instruction takes.
    #[verifier::opaque]
    pub open spec fn exec_cycles(self) -> u8 {
        match self.current_instruction.kind {
            InstrKind::Ldr => self.ldr_cycles(),
            InstrKind::Ldm => self.ldm_cycles(),
            InstrKind::Ldh => self.ldh_cycles(),
            InstrKind::Ldi | InstrKind::Ldd => 2,
            InstrKind::Inc | InstrKind::Dec => self.incdec_cycles(),
            InstrKind::Add => self.add_cycles(),
            InstrKind::Adc | InstrKind::Sub | InstrKind::Sbc | InstrKind::And | InstrKind::Xor
            | InstrKind::Or | InstrKind::Cp => self.operand8_cycles(),
            InstrKind::Jr => if self.taken() { 3 } else { 2 },
            InstrKind::Jp => self.jp_cycles(),
            InstrKind::Call => if self.taken() { 6 } else { 3 },
            InstrKind::Ret => self.ret_cycles(),
            InstrKind::Reti | InstrKind::Rst(_) | InstrKind::Push => 4,
            InstrKind::Pop => 3,
            InstrKind::Rlc | InstrKind::Rrc | InstrKind::Rl | InstrKind::Rr | InstrKind::Sla
            | InstrKind::Sra | InstrKind::Swap | InstrKind::Srl => self.shift_cycles(),
            InstrKind::Bit(_) => if self.mode() == AddrMode::IMM_RADDR { 3 } else { 2 },
            InstrKind::ResBit(_) | InstrKind::SetBit(_) => if self.mode() == AddrMode::IMM_RADDR { 4 } else { 2 },
            _ => 1,
        }
    }
}

/// What `after_execute` and `exec_cycles` are for the operations of `execute_load`.
proof fn lemma_execute_load(c: LR35902CPU)
    ensures
        c.current_instruction.kind is Nop ==> c.after_execute() == c && c.exec_cycles() == 1,
        c.current_instruction.kind is Ldr ==> c.after_execute() == c.after_ldr() && c.exec_cycles() == c.ldr_cycles(),
        c.current_instruction.kind is Ldm ==> c.after_execute() == c.after_ldm() && c.exec_cycles() == c.ldm_cycles(),
        c.current_instruction.kind is Ldh ==> c.after_execute() == c.after_ldh() && c.exec_cycles() == c.ldh_cycles(),
        c.current_instruction.kind is Ldi ==> c.after_execute() == c.after_ld_step(true) && c.exec_cycles() == 2,
        c.current_instruction.kind is Ldd ==> c.after_execute() == c.after_ld_step(false) && c.exec_cycles() == 2,
        c.current_instruction.kind is Push ==> c.after_execute() == c.after_push16(c.push_value()) && c.exec_cycles() == 4,
        c.current_instruction.kind is Pop ==> c.after_execute() == c.after_pop() && c.exec_cycles() == 3,
{
    reveal(LR35902CPU::after_execute);
    reveal(LR35902CPU::exec_cycles);
}

/// What `after_execute` and `exec_cycles` are for the operations of `execute_alu`.
#[verifier::rlimit(50)]
proof fn lemma_execute_alu(c: LR35902CPU)
    ensures
        c.current_instruction.kind is Inc ==> c.after_execute() == c.after_incdec(true) && c.exec_cycles() == c.incdec_cycles(),
        c.current_instruction.kind is Dec ==> c.after_execute() == c.after_incdec(false) && c.exec_cycles() == c.incdec_cycles(),
        c.current_instruction.kind is Add ==> c.after_execute() == c.after_add() && c.exec_cycles() == c.add_cycles(),
        is_alu8(c.current_instruction.kind) && !(c.current_instruction.kind is Add) ==>
            c.after_execute() == c.after_alu8(c.current_instruction.kind) && c.exec_cycles() == c.operand8_cycles(),
        c.current_instruction.kind is Daa ==> c.after_execute() == c.after_daa() && c.exec_cycles() == 1,
        c.current_instruction.kind is Cpl ==> c.after_execute() == c.after_cpl() && c.exec_cycles() == 1,
        c.current_instruction.kind is Scf ==> c.after_execute() == c.after_scf() && c.exec_cycles() == 1,
        c.current_instruction.kind is Ccf ==> c.after_execute() == c.after_ccf() && c.exec_cycles() == 1,
{
    reveal(LR35902CPU::after_execute);
    reveal(LR35902CPU::exec_cycles);
}

/// What `after_execute` and `exec_cycles` are for the operations of `execute_flow`.
#[verifier::rlimit(50)]
proof fn lemma_execute_flow(c: LR35902CPU)
    ensures
        (c.current_instruction.kind is Halt || c.current_instruction.kind is Stop) ==>
            c.after_execute() == (LR35902CPU { halt: true, ..c }) && c.exec_cycles() == 1,
        c.current_instruction.kind is Jr ==> c.after_execute() == c.after_jr()
            && c.exec_cycles() == (if c.taken() { 3u8 } else { 2u8 }),
        c.current_instruction.kind is Jp ==> c.after_execute() == c.after_jp() && c.exec_cycles() == c.jp_cycles(),
        c.current_instruction.kind is Call ==> c.after_execute() == c.after_call()
            && c.exec_cycles() == (if c.taken() { 6u8 } else { 3u8 }),
        c.current_instruction.kind is Ret ==> c.after_execute() == c.after_ret() && c.exec_cycles() == c.ret_cycles(),
        c.current_instruction.kind is Reti ==> c.after_execute() == c.after_reti() && c.exec_cycles() == 4,
        c.current_instruction.kind matches InstrKind::Rst(a) ==> c.after_execute() == c.after_rst(a) && c.exec_cycles() == 4,
        c.current_instruction.kind is Di ==> c.after_execute() == (LR35902CPU { int_master: false, ..c }) && c.exec_cycles() == 1,
        c.current_instruction.kind is Ei ==> c.after_execute() == (LR35902CPU { enabling_ints: true, halt: false, ..c })
            && c.exec_cycles() == 1,
{
    reveal(LR35902CPU::after_execute);
    reveal(LR35902CPU::exec_cycles);
}

/// What `after_execute` and `exec_cycles` are for the operations of `execute_cb`.
#[verifier::rlimit(50)]
proof fn lemma_execute_cb(c: LR35902CPU)
    ensures
        (c.current_instruction.kind is Rlca) ==> c.after_execute() == c.after_rotate_a(InstrKind::Rlc) && c.exec_cycles() == 1,
        (c.current_instruction.kind is Rrca) ==> c.after_execute() == c.after_rotate_a(InstrKind::Rrc) && c.exec_cycles() == 1,
        (c.current_instruction.kind is Rla) ==> c.after_execute() == c.after_rotate_a(InstrKind::Rl) && c.exec_cycles() == 1,
        (c.current_instruction.kind is Rra) ==> c.after_execute() == c.after_rotate_a(InstrKind::Rr) && c.exec_cycles() == 1,
        is_shift(c.current_instruction.kind) ==> c.after_execute() == c.after_shift(c.current_instruction.kind)
            && c.exec_cycles() == c.shift_cycles(),
        c.current_instruction.kind matches InstrKind::Bit(b) ==> c.after_execute() == c.after_bit(b)
            && c.exec_cycles() == (if c.mode() == AddrMode::IMM_RADDR { 3u8 } else { 2u8 }),
        c.current_instruction.kind matches InstrKind::ResBit(b) ==> c.after_execute() == c.after_res_set(b, false)
            && c.exec_cycles() == (if c.mode() == AddrMode::IMM_RADDR { 4u8 } else { 2u8 }),
        c.current_instruction.kind matches InstrKind::SetBit(b) ==> c.after_execute() == c.after_res_set(b, true)
            && c.exec_cycles() == (if c.mode() == AddrMode::IMM_RADDR { 4u8 } else { 2u8 }),

{
    reveal(LR35902CPU::after_execute);
    reveal(LR35902CPU::exec_cycles);
}

/// Runs the current instruction, one of the loads and stack transfers.
fn execute_load(cpu: &mut LR35902CPU) -> (cycles: u8)
    requires
        old(cpu).wf(),
        old(cpu).exec_ok(),
        old(cpu).current_instruction.kind is Nop || old(cpu).current_instruction.kind is Ldr || old(cpu).current_instruction.kind is Ldm || old(cpu).current_instruction.kind is Ldh || old(cpu).current_instruction.kind is Ldi || old(cpu).current_instruction.kind is Ldd || old(cpu).current_instruction.kind is Push || old(cpu).current_instruction.kind is Pop,
    ensures
        final(cpu).wf(),
        *final(cpu) == old(cpu).after_execute(),
        cycles == old(cpu).exec_cycles(),
{
    proof {
        lemma_execute_load(*cpu);
    }
    match cpu.current_instruction.kind {
        InstrKind::Nop => 1,
        InstrKind::Ldr => ldr(cpu),
        InstrKind::Ldm => ldm(cpu),
        InstrKind::Ldh => ldh(cpu),
        InstrKind::Ldi => ldi(cpu),
        InstrKind::Ldd => ldd(cpu),
        InstrKind::Push => push(cpu),
        InstrKind::Pop => pop(cpu),
        _ => 1,
    }
}

/// Runs the current instruction, one of the arithmetic and flag operations.
fn execute_alu(cpu: &mut LR35902CPU) -> (cycles: u8)
    requires
        old(cpu).wf(),
        old(cpu).exec_ok(),
        old(cpu).current_instruction.kind is Inc || old(cpu).current_instruction.kind is Dec || old(cpu).current_instruction.kind is Add || old(cpu).current_instruction.kind is Adc || old(cpu).current_instruction.kind is Sub || old(cpu).current_instruction.kind is Sbc || old(cpu).current_instruction.kind is And || old(cpu).current_instruction.kind is Xor || old(cpu).current_instruction.kind is Or || old(cpu).current_instruction.kind is Cp || old(cpu).current_instruction.kind is Daa || old(cpu).current_instruction.kind is Cpl || old(cpu).current_instruction.kind is Scf || old(cpu).current_instruction.kind is Ccf,
    ensures
        final(cpu).wf(),
        *final(cpu) == old(cpu).after_execute(),
        cycles == old(cpu).exec_cycles(),
{
    proof {
        lemma_execute_alu(*cpu);
    }
    match cpu.current_instruction.kind {
        InstrKind::Inc => inc(cpu),
        InstrKind::Dec => dec(cpu),
        InstrKind::Add => crate::cpu::instructions::arithmetic::add(cpu),
        InstrKind::Adc => adc(cpu),
        InstrKind::Sub => crate::cpu::instructions::arithmetic::sub(cpu),
        InstrKind::Sbc => sbc(cpu),
        InstrKind::And => and(cpu),
        InstrKind::Xor => xor(cpu),
        InstrKind::Or => or(cpu),
        InstrKind::Cp => cp(cpu),
        InstrKind::Daa => daa(cpu),
        InstrKind::Cpl => cpl(cpu),
        InstrKind::Scf => scf(cpu),
        InstrKind::Ccf => ccf(cpu),
        _ => 1,
    }
}

/// Runs the current instruction, one of the jumps, calls, returns and CPU control.
fn execute_flow(cpu: &mut LR35902CPU) -> (cycles: u8)
    requires
        old(cpu).wf(),
        old(cpu).exec_ok(),
        old(cpu).current_instruction.kind is Halt || old(cpu).current_instruction.kind is Stop || old(cpu).current_instruction.kind is Jr || old(cpu).current_instruction.kind is Jp || old(cpu).current_instruction.kind is Call || old(cpu).current_instruction.kind is Ret || old(cpu).current_instruction.kind is Reti || old(cpu).current_instruction.kind is Rst || old(cpu).current_instruction.kind is Di || old(cpu).current_instruction.kind is Ei,
    ensures
        final(cpu).wf(),
        *final(cpu) == old(cpu).after_execute(),
        cycles == old(cpu).exec_cycles(),
{
    proof {
        lemma_execute_flow(*cpu);
    }
    match cpu.current_instruction.kind {
        InstrKind::Halt => halt(cpu),
        InstrKind::Stop => stop(cpu),
        InstrKind::Jr => jr(cpu),
        InstrKind::Jp => jp(cpu),
        InstrKind::Call => call(cpu),
        InstrKind::Ret => ret(cpu),
        InstrKind::Reti => reti(cpu),
        InstrKind::Rst(a) => rst(cpu, a),
        InstrKind::Di => di(cpu),
        InstrKind::Ei => ei(cpu),
        _ => 1,
    }
}

/// Runs the current instruction, one of the rotates, shifts and bit operations.
fn execute_cb(cpu: &mut LR35902CPU) -> (cycles: u8)
    requires
        old(cpu).wf(),
        old(cpu).exec_ok(),
        old(cpu).current_instruction.kind is Rlca || old(cpu).current_instruction.kind is Rrca || old(cpu).current_instruction.kind is Rla || old(cpu).current_instruction.kind is Rra || old(cpu).current_instruction.kind is Rlc || old(cpu).current_instruction.kind is Rrc || old(cpu).current_instruction.kind is Rl || old(cpu).current_instruction.kind is Rr || old(cpu).current_instruction.kind is Sla || old(cpu).current_instruction.kind is Sra || old(cpu).current_instruction.kind is Swap || old(cpu).current_instruction.kind is Srl || old(cpu).current_instruction.kind is Bit || old(cpu).current_instruction.kind is ResBit || old(cpu).current_instruction.kind is SetBit,
    ensures
        final(cpu).wf(),
        *final(cpu) == old(cpu).after_execute(),
        cycles == old(cpu).exec_cycles(),
{
    proof {
        lemma_execute_cb(*cpu);
    }
    match cpu.current_instruction.kind {
        InstrKind::Rlca => rlca(cpu),
        InstrKind::Rrca => rrca(cpu),
        InstrKind::Rla => rla(cpu),
        InstrKind::Rra => rra(cpu),
        InstrKind::Rlc => rlc(cpu),
        InstrKind::Rrc => rrc(cpu),
        InstrKind::Rl => rl(cpu),
        InstrKind::Rr => rr(cpu),
        InstrKind::Sla => sla(cpu),
        InstrKind::Sra => sra(cpu),
        InstrKind::Swap => swap(cpu),
        InstrKind::Srl => srl(cpu),
        InstrKind::Bit(b) => bit(cpu, b),
        InstrKind::ResBit(b) => res(cpu, b),
        InstrKind::SetBit(b) => crate::cpu::instructions::bit::set(cpu, b),
        _ => 1,
    }
}

/// Runs the current instruction; the result is the M-cycles it took.
pub fn execute(cpu: &mut LR35902CPU) -> (cycles: u8)
    requires
        old(cpu).wf(),
        old(cpu).exec_ok(),
    ensures
        final(cpu).wf(),
        *final(cpu) == old(cpu).after_execute(),
        cycles == old(cpu).exec_cycles(),
{
    match cpu.current_instruction.kind {
        InstrKind::Nop => execute_load(cpu),
        InstrKind::Ldr => execute_load(cpu),
        InstrKind::Ldm => execute_load(cpu),
        InstrKind::Ldh => execute_load(cpu),
        InstrKind::Ldi => execute_load(cpu),
        InstrKind::Ldd => execute_load(cpu),
        InstrKind::Push => execute_load(cpu),
        InstrKind::Pop => execute_load(cpu),
        InstrKind::Inc => execute_alu(cpu),
        InstrKind::Dec => execute_alu(cpu),
        InstrKind::Add => execute_alu(cpu),
        InstrKind::Adc => execute_alu(cpu),
        InstrKind::Sub => execute_alu(cpu),
        InstrKind::Sbc => execute_alu(cpu),
        InstrKind::And => execute_alu(cpu),
        InstrKind::Xor => execute_alu(cpu),
        InstrKind::Or => execute_alu(cpu),
        InstrKind::Cp => execute_alu(cpu),
        InstrKind::Daa => execute_alu(cpu),
        InstrKind::Cpl => execute_alu(cpu),
        InstrKind::Scf => execute_alu(cpu),
        InstrKind::Ccf => execute_alu(cpu),
        InstrKind::Halt => execute_flow(cpu),
        InstrKind::Stop => execute_flow(cpu),
        InstrKind::Jr => execute_flow(cpu),
        InstrKind::Jp => execute_flow(cpu),
        InstrKind::Call => execute_flow(cpu),
        InstrKind::Ret => execute_flow(cpu),
        InstrKind::Reti => execute_flow(cpu),
        InstrKind::Rst(_) => execute_flow(cpu),
        InstrKind::Di => execute_flow(cpu),
        InstrKind::Ei => execute_flow(cpu),
        InstrKind::Rlca => execute_cb(cpu),
        InstrKind::Rrca => execute_cb(cpu),
        InstrKind::Rla => execute_cb(cpu),
        InstrKind::Rra => execute_cb(cpu),
        InstrKind::Rlc => execute_cb(cpu),
        InstrKind::Rrc => execute_cb(cpu),
        InstrKind::Rl => execute_cb(cpu),
        InstrKind::Rr => execute_cb(cpu),
        InstrKind::Sla => execute_cb(cpu),
        InstrKind::Sra => execute_cb(cpu),
        InstrKind::Swap => execute_cb(cpu),
        InstrKind::Srl => execute_cb(cpu),
        InstrKind::Bit(_) => execute_cb(cpu),
        InstrKind::ResBit(_) => execute_cb(cpu),
        InstrKind::SetBit(_) => execute_cb(cpu),
    }
}

/// CALL with its checks made as it goes: the target's readability is
/// checked once the return address is pushed.
fn try_call(cpu: &mut LR35902CPU) -> (r: Option<u8>)
    requires
        old(cpu).wf(),
        old(cpu).current_instruction.kind is Call,
    ensures
        final(cpu).wf(),
        r is Some ==> old(cpu).exec_ok() && *final(cpu) == old(cpu).after_execute()
            && r == Some(old(cpu).exec_cycles()),
        r is None ==> !old(cpu).exec_ok(),
{
    proof {
        lemma_execute_flow(*cpu);
        reveal(LR35902CPU::call_ok);
        reveal(LR35902CPU::after_call);
    }
    let pc = cpu.pc();
    if pc > 0xfffd {
        return None;
    }
    if !check_cond(cpu, cpu.current_instruction.condition) {
        cpu.inc_pc(2);
        return Some(3);
    }
    if cpu.sp() < 2 {
        return None;
    }
    push16(cpu, pc + 2);
    if !cpu.readable16(pc) {
        return None;
    }
    let target = cpu.read16(pc);
    cpu.set_register(&CPURegisterId::PC, target);
    Some(6)
}

/// Runs the current instruction if it can run; `None` (the CPU possibly
/// part-way through it) when it cannot.
pub fn try_execute(cpu: &mut LR35902CPU) -> (r: Option<u8>)
    requires
        old(cpu).wf(),
    ensures
        final(cpu).wf(),
        r is Some ==> old(cpu).exec_ok() && *final(cpu) == old(cpu).after_execute()
            && r == Some(old(cpu).exec_cycles()),
        r is None ==> !old(cpu).exec_ok(),
{
    let ok = match cpu.current_instruction.kind {
        InstrKind::Call => {
            return try_call(cpu);
        },
        InstrKind::Ldr => ldr_check(cpu),
        InstrKind::Ldm => ldm_check(cpu),
        InstrKind::Ldh => ldh_check(cpu),
        InstrKind::Ldi => ld_step_check(cpu, true),
        InstrKind::Ldd => ld_step_check(cpu, false),
        InstrKind::Inc | InstrKind::Dec => incdec_check(cpu),
        InstrKind::Add => add_check(cpu),
        InstrKind::Adc | InstrKind::Sub | InstrKind::Sbc | InstrKind::And | InstrKind::Xor
        | InstrKind::Or | InstrKind::Cp => operand8_check(cpu),
        InstrKind::Jr => jr_check(cpu),
        InstrKind::Jp => jp_check(cpu),
        InstrKind::Ret => ret_check(cpu),
        InstrKind::Reti => pop16_check(cpu),
        InstrKind::Rst(_) => cpu.sp() >= 2,
        InstrKind::Push => push_check(cpu),
        InstrKind::Pop => pop_check(cpu),
        InstrKind::Rlc | InstrKind::Rrc | InstrKind::Rl | InstrKind::Rr | InstrKind::Sla
        | InstrKind::Sra | InstrKind::Swap | InstrKind::Srl => shift_check(cpu),
        InstrKind::Bit(b) | InstrKind::ResBit(b) | InstrKind::SetBit(b) => bit_op_check(cpu, b),
        _ => true,
    };
    if ok {
        Some(execute(cpu))
    } else {
        None
    }
}

} // verus!
