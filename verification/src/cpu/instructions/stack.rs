use vstd::prelude::*;
use crate::bits::{lemma_u16_fields, lemma_u16_join, lemma_u8_fields};
use crate::cpu::cpu::LR35902CPU;
use crate::cpu::registers::{CPURegisterId, CPURegisters};
use crate::mem::bus::{bus_ram_byte, lemma_bus_read_after_write, ram_home};

verus! {

/// The high and low 8-bit halves of a register pair.
pub open spec fn pair_halves(r: CPURegisterId) -> (CPURegisterId, CPURegisterId) {
    match r {
        CPURegisterId::AF => (CPURegisterId::A, CPURegisterId::F),
        CPURegisterId::BC => (CPURegisterId::B, CPURegisterId::C),
        CPURegisterId::DE => (CPURegisterId::D, CPURegisterId::E),
        _ => (CPURegisterId::H, CPURegisterId::L),
    }
}

/// Whether `r` is one of the pairs PUSH and POP take.
pub open spec fn is_stack_pair(r: CPURegisterId) -> bool {
    r == CPURegisterId::AF || r == CPURegisterId::BC || r == CPURegisterId::DE || r == CPURegisterId::HL
}

impl LR35902CPU {
    /// The CPU with SP replaced.
    pub open spec fn with_sp(self, sp: u16) -> LR35902CPU {
        self.with_regs(CPURegisters { sp, ..self.registers })
    }

    /// The CPU after pushing one byte: SP decremented, the byte written there.
    pub open spec fn after_push8(self, v: u8) -> LR35902CPU {
        let sp = (self.registers.sp - 1) as u16;
        self.with_sp(sp).with_write(sp, v)
    }

    /// The CPU after pushing a word, high byte first (so it lands above the
    /// low byte).
    pub open spec fn after_push16(self, v: u16) -> LR35902CPU {
        self.after_push8((v / 256) as u8).after_push8((v % 256) as u8)
    }

    /// Whether two bytes can be popped: SP stays below 0xFFFF and both bytes
    /// can be read.
    pub open spec fn can_pop16(self) -> bool {
        let sp = self.registers.sp;
        sp < 0xfffe && self.can_read(sp) && self.can_read((sp + 1) as u16)
    }

    /// The word on top of the stack (low byte at SP).
    pub open spec fn top16(self) -> u16 {
        self.mem16(self.registers.sp)
    }

    /// The value PUSH rr stores: the pair, with F's low nibble cleared.
    pub open spec fn push_value(self) -> u16 {
        let (hi, lo) = pair_halves(self.r1());
        let l = self.registers.reg8(lo);
        (self.registers.reg8(hi) * 256 + (if lo == CPURegisterId::F { (l / 16 * 16) as u8 } else { l })) as u16
    }

    /// Whether PUSH rr can run.
    #[verifier::opaque]
    pub open spec fn push_ok(self) -> bool {
        &&& self.current_instruction.reg1 is Some
        &&& is_stack_pair(self.r1())
        &&& self.registers.sp >= 2
    }

    /// Whether POP rr can run.
    #[verifier::opaque]
    pub open spec fn pop_ok(self) -> bool {
        &&& self.current_instruction.reg1 is Some
        &&& is_stack_pair(self.r1())
        &&& self.can_pop16()
    }

    /// The CPU after POP rr: the low half from (SP) (F keeps only its high
    /// nibble), the high half from (SP + 1), SP up by two.
    #[verifier::opaque]
    pub open spec fn after_pop(self) -> LR35902CPU {
        let sp = self.registers.sp;
        let (hi, lo) = pair_halves(self.r1());
        let l = self.mem(sp);
        self.with_sp((sp + 2) as u16)
            .with_reg(lo, (if lo == CPURegisterId::F { (l / 16 * 16) as u8 } else { l }) as u16)
            .with_reg(hi, self.mem((sp + 1) as u16) as u16)
    }
}

/// Pops one byte: reads (SP), then SP up by one.
pub fn _pop(cpu: &mut LR35902CPU) -> (r: u8)
    requires
        old(cpu).wf(),
        old(cpu).registers.sp < 0xffff,
        old(cpu).can_read(old(cpu).registers.sp),
    ensures
        final(cpu).wf(),
        r == old(cpu).mem(old(cpu).registers.sp),
        *final(cpu) == old(cpu).with_sp((old(cpu).registers.sp + 1) as u16),
{
    let v = cpu.read(cpu.sp());
    cpu.inc_sp();
    v
}

/// Pushes one byte: SP down by one, then the byte written at SP.
pub fn _push(cpu: &mut LR35902CPU, value: u8)
    requires
        old(cpu).wf(),
        old(cpu).registers.sp > 0,
    ensures
        final(cpu).wf(),
        *final(cpu) == old(cpu).after_push8(value),
{
    cpu.dec_sp();
    let sp = cpu.sp();
    cpu.write(sp, value);
}

/// Pushes a word, high byte first.
pub fn push16(cpu: &mut LR35902CPU, value: u16)
    requires
        old(cpu).wf(),
        old(cpu).registers.sp >= 2,
    ensures
        final(cpu).wf(),
        *final(cpu) == old(cpu).after_push16(value),
{
    assert(value >> 8u16 == value / 256 && value & 0xff == value % 256) by { lemma_u16_fields(value); }
    _push(cpu, (value >> 8) as u8);
    _push(cpu, (value & 0xff) as u8);
}

/// Pops a word, low byte first.
pub fn pop16(cpu: &mut LR35902CPU) -> (r: u16)
    requires
        old(cpu).wf(),
        old(cpu).can_pop16(),
    ensures
        final(cpu).wf(),
        r == old(cpu).top16(),
        *final(cpu) == old(cpu).with_sp((old(cpu).registers.sp + 2) as u16),
{
    let lo = _pop(cpu);
    let hi = _pop(cpu);
    assert(((hi as u16) << 8u16) | (lo as u16) == lo + hi * 256) by { lemma_u16_join(hi, lo); }
    ((hi as u16) << 8) | (lo as u16)
}

/// The two halves of a stack pair, high first.
fn halves(r: CPURegisterId) -> (h: (CPURegisterId, CPURegisterId))
    ensures
        h == pair_halves(r),
{
    match r {
        CPURegisterId::AF => (CPURegisterId::A, CPURegisterId::F),
        CPURegisterId::BC => (CPURegisterId::B, CPURegisterId::C),
        CPURegisterId::DE => (CPURegisterId::D, CPURegisterId::E),
        _ => (CPURegisterId::H, CPURegisterId::L),
    }
}

/// POP rr.
pub fn pop(cpu: &mut LR35902CPU) -> (cycles: u8)
    requires
        old(cpu).wf(),
        old(cpu).pop_ok(),
    ensures
        final(cpu).wf(),
        *final(cpu) == old(cpu).after_pop(),
        cycles == 3,
{
    proof {
        reveal(LR35902CPU::pop_ok);
        reveal(LR35902CPU::after_pop);
    }
    let instr = cpu.current_instruction;
    let (hi, lo) = halves(instr.reg1.unwrap());
    let mut v = _pop(cpu);
    if matches!(lo, CPURegisterId::F) {
        assert(v & 0xf0 == v / 16 * 16) by { lemma_u8_fields(v); }
        v = v & 0xf0;
    }
    cpu.set_register(&lo, v as u16);
    let w = _pop(cpu);
    cpu.set_register(&hi, w as u16);
    3
}

/// PUSH rr.
pub fn push(cpu: &mut LR35902CPU) -> (cycles: u8)
    requires
        old(cpu).wf(),
        old(cpu).push_ok(),
    ensures
        final(cpu).wf(),
        *final(cpu) == old(cpu).after_push16(old(cpu).push_value()),
        cycles == 4,
{
    proof {
        reveal(LR35902CPU::push_ok);
    }
    let instr = cpu.current_instruction;
    let (hi, lo) = halves(instr.reg1.unwrap());
    let h = cpu.get_register(&hi);
    let mut l = cpu.get_register(&lo);
    if matches!(lo, CPURegisterId::F) {
        assert(l & 0xf0 == l / 16 * 16) by { lemma_u8_fields(l); }
        l = l & 0xf0;
    }
    _push(cpu, h);
    _push(cpu, l);
    proof {
        let v = old(cpu).push_value();
        assert(v / 256 == h && v % 256 == l);
    }
    4
}

/// Whether two bytes can be popped (see `can_pop16`).
pub fn pop16_check(cpu: &LR35902CPU) -> (r: bool)
    requires
        cpu.wf(),
    ensures
        r == cpu.can_pop16(),
{
    let sp = cpu.sp();
    sp < 0xfffe && cpu.readable(sp) && cpu.readable(sp + 1)
}

/// Whether PUSH rr can run (see `push_ok`).
pub fn push_check(cpu: &LR35902CPU) -> (r: bool)
    ensures
        r == cpu.push_ok(),
{
    proof {
        reveal(LR35902CPU::push_ok);
    }
    match cpu.current_instruction.reg1 {
        Some(r) => matches!(r, CPURegisterId::AF | CPURegisterId::BC | CPURegisterId::DE | CPURegisterId::HL)
            && cpu.sp() >= 2,
        None => false,
    }
}

/// Whether POP rr can run (see `pop_ok`).
pub fn pop_check(cpu: &LR35902CPU) -> (r: bool)
    requires
        cpu.wf(),
    ensures
        r == cpu.pop_ok(),
{
    proof {
        reveal(LR35902CPU::pop_ok);
    }
    match cpu.current_instruction.reg1 {
        Some(r) => matches!(r, CPURegisterId::AF | CPURegisterId::BC | CPURegisterId::DE | CPURegisterId::HL)
            && pop16_check(cpu),
        None => false,
    }
}

/// A pushed word pops back: when the two bytes below SP are RAM, pushing `v`
/// leaves a stack from which two bytes can be popped, its top word is `v`,
/// and popping it brings SP back to where it was.
pub proof fn lemma_push_pop(c: LR35902CPU, v: u16)
    requires
        c.wf(),
        c.registers.sp >= 2,
        bus_ram_byte((c.registers.sp - 2) as u16),
        bus_ram_byte((c.registers.sp - 1) as u16),
    ensures
        c.after_push16(v).can_pop16(),
        c.after_push16(v).top16() == v,
        c.after_push16(v).registers.sp + 2 == c.registers.sp,
{
    reveal(LR35902CPU::wf);
    let sp = c.registers.sp;
    let hi_addr = (sp - 1) as u16;
    let lo_addr = (sp - 2) as u16;
    let c1 = c.after_push8((v / 256) as u8);
    let c2 = c1.after_push8((v % 256) as u8);
    lemma_bus_read_after_write(c.bus, hi_addr, (v / 256) as u8, lo_addr);
    lemma_bus_read_after_write(c1.bus, lo_addr, (v % 256) as u8, hi_addr);
    lemma_bus_read_after_write(c1.bus, lo_addr, (v % 256) as u8, lo_addr);
    assert(ram_home(hi_addr) != ram_home(lo_addr));
    assert(c2.mem(lo_addr) == v % 256);
    assert(c2.mem(hi_addr) == v / 256);
    assert(c2.bus.read_safe(lo_addr) && c2.bus.read_safe(hi_addr)) by {
        reveal(crate::io::IOMMU::after_write);
        reveal(crate::mem::bus::Bus::after_write);
    }
}

} // verus!
