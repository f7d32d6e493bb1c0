use vstd::prelude::*;
use crate::bits::{lemma_u16_with_byte};
use crate::cpu::clock::{Clock, TICKS_PER_FRAME};
use crate::cpu::instructions::{decode, instruction_table, AddrMode, Instruction};
use crate::cpu::registers::{is_r8, CPURegisterId, CPURegisters};
use crate::mem::bus::Bus;

verus! {

/// The Sharp LR35902 CPU with its bus.
pub struct LR35902CPU {
    pub registers: CPURegisters,
    /// Print bytes sent on the serial port.
    pub serial: bool,
    pub bus: Bus,
    pub current_instruction: Instruction,
    pub halt: bool,
    /// IME.
    pub int_master: bool,
    /// EI was executed: IME turns on after the next instruction.
    pub enabling_ints: bool,
    pub clock: Clock,
}

impl LR35902CPU {
    #[verifier::opaque]
    pub open spec fn wf(&self) -> bool {
        &&& self.bus.wf()
        &&& self.clock.clock_ticks < TICKS_PER_FRAME
    }

    /// The CPU with its registers replaced.
    pub open spec fn with_regs(self, r: CPURegisters) -> LR35902CPU {
        LR35902CPU { registers: r, ..self }
    }

    /// The CPU with PC replaced.
    pub open spec fn with_pc(self, pc: u16) -> LR35902CPU {
        LR35902CPU { registers: CPURegisters { pc, ..self.registers }, ..self }
    }

    /// The CPU with its bus replaced.
    pub open spec fn with_bus(self, b: Bus) -> LR35902CPU {
        LR35902CPU { bus: b, ..self }
    }

    /// The CPU with register `r` set to `v` (8-bit registers take the low byte).
    pub open spec fn with_reg(self, r: CPURegisterId, v: u16) -> LR35902CPU {
        self.with_regs(self.registers.with_reg(r, v))
    }

    /// The CPU after `set_flags(z, n, h, c)`.
    pub open spec fn with_flags(self, z: i8, n: i8, h: i8, c: i8) -> LR35902CPU {
        self.with_regs(self.registers.with_flags(z, n, h, c))
    }

    /// The CPU after a bus write of `v` at `addr`.
    pub open spec fn with_write(self, addr: u16, v: u8) -> LR35902CPU {
        self.with_bus(self.bus.after_write(addr, v))
    }

    /// The CPU with PC moved `n` bytes on.
    pub open spec fn adv(self, n: int) -> LR35902CPU {
        self.with_pc((self.registers.pc + n) as u16)
    }

    /// The immediate byte at PC.
    pub open spec fn imm8(self) -> u8 {
        self.mem(self.registers.pc)
    }

    /// The immediate little-endian word at PC.
    pub open spec fn imm16(self) -> u16 {
        self.mem16(self.registers.pc)
    }

    /// The byte at `addr`.
    pub open spec fn mem(self, addr: u16) -> u8 {
        self.bus.read_value(addr)
    }

    /// Whether reading `addr` is safe.
    pub open spec fn can_read(self, addr: u16) -> bool {
        self.bus.read_safe(addr)
    }

    /// The little-endian word at `addr`.
    pub open spec fn mem16(self, addr: u16) -> u16 {
        (self.mem(addr) + self.mem((addr + 1) as u16) * 256) as u16
    }

    /// Whether reading the word at `addr` is safe.
    pub open spec fn can_read16(self, addr: u16) -> bool {
        addr < 0xffff && self.can_read(addr) && self.can_read((addr + 1) as u16)
    }

    /// Whether the immediate byte at PC can be read and skipped.
    pub open spec fn can_fetch8(self) -> bool {
        self.registers.pc < 0xffff && self.can_read(self.registers.pc)
    }

    /// Whether the immediate word at PC can be read and skipped.
    pub open spec fn can_fetch16(self) -> bool {
        self.registers.pc < 0xfffe && self.can_read16(self.registers.pc)
    }

    /// The operand register of the current instruction.
    pub open spec fn r1(self) -> CPURegisterId {
        self.current_instruction.reg1.unwrap()
    }

    /// The source register of the current instruction.
    pub open spec fn r2(self) -> CPURegisterId {
        self.current_instruction.reg2.unwrap()
    }

    pub open spec fn mode(self) -> AddrMode {
        self.current_instruction.addr_mode
    }

    /// The opcode at PC (0x100 plus the next byte after a 0xCB prefix).
    pub open spec fn opcode_at_pc(self) -> u16 {
        let b = self.mem(self.registers.pc);
        if b == 0xcb { (0x100 + self.mem((self.registers.pc + 1) as u16)) as u16 } else { b as u16 }
    }

    /// Whether the instruction at PC can be fetched: its bytes are readable, PC
    /// does not overflow and the opcode is a used one.
    pub open spec fn can_fetch_instruction(self) -> bool {
        let pc = self.registers.pc;
        &&& pc < 0xffff
        &&& self.can_read(pc)
        &&& (self.mem(pc) == 0xcb ==> pc < 0xfffe && self.can_read((pc + 1) as u16))
        &&& instruction_table(self.opcode_at_pc()) is Some
    }

    /// The CPU after the fetch of the instruction at PC.
    pub open spec fn after_fetch(self) -> LR35902CPU {
        let pc = self.registers.pc;
        let len: u16 = if self.mem(pc) == 0xcb { 2 } else { 1 };
        LR35902CPU {
            registers: CPURegisters { pc: (pc + len) as u16, ..self.registers },
            current_instruction: instruction_table(self.opcode_at_pc()).unwrap(),
            ..self
        }
    }

    /// A CPU over `bus`: execution starts at 0 with a boot ROM, else at 0x100.
    pub fn new(bus: Bus, serial: bool, clock_speed: u32) -> (r: Self)
        requires
            bus.wf(),
            clock_speed > 0,
        ensures
            r.wf(),
            r.registers == CPURegisters::new_spec(if bus.booting { 0 } else { 0x100 }),
            r.bus == bus,
            r.serial == serial,
            !r.halt && !r.int_master && !r.enabling_ints,
            r.current_instruction == instruction_table(0).unwrap(),
            r.clock.clock_ticks == 0,
    {
        reveal(LR35902CPU::wf);
        let pc: u16 = if bus.booting { 0 } else { 0x100 };
        let nop = decode(0).unwrap();
        LR35902CPU {
            bus,
            serial,
            current_instruction: nop,
            halt: false,
            registers: CPURegisters::new(pc),
            int_master: false,
            enabling_ints: false,
            clock: Clock::new(clock_speed),
        }
    }

    pub fn set_register(&mut self, register: &CPURegisterId, value: u16)
        ensures
            old(self).wf() ==> final(self).wf(),
            *final(self) == old(self).with_regs(old(self).registers.with_reg(*register, value)),
    {
        reveal(LR35902CPU::wf);
        self.registers.set_register(register, value);
    }

    pub fn get_register(&self, register: &CPURegisterId) -> (r: u8)
        requires
            is_r8(*register),
        ensures
            r == self.registers.reg8(*register),
    {
        self.registers.get_register(register)
    }

    pub fn get_register16(&self, register: &CPURegisterId) -> (r: u16)
        requires
            !is_r8(*register),
        ensures
            r == self.registers.reg16(*register),
    {
        self.registers.get_register16(register)
    }

    pub fn inc_pc(&mut self, inc: u16)
        requires
            old(self).registers.pc + inc <= 0xffff,
        ensures
            old(self).wf() ==> final(self).wf(),
            *final(self) == old(self).with_pc((old(self).registers.pc + inc) as u16),
    {
        reveal(LR35902CPU::wf);
        self.registers.pc = self.registers.pc + inc;
    }

    pub fn pc(&self) -> (r: u16)
        ensures
            r == self.registers.pc,
    {
        self.registers.pc
    }

    pub fn inc_sp(&mut self)
        requires
            old(self).registers.sp < 0xffff,
        ensures
            old(self).wf() ==> final(self).wf(),
            *final(self) == old(self).with_regs(CPURegisters { sp: (old(self).registers.sp + 1) as u16, ..old(self).registers }),
    {
        reveal(LR35902CPU::wf);
        self.registers.sp = self.registers.sp + 1;
    }

    pub fn dec_sp(&mut self)
        requires
            old(self).registers.sp > 0,
        ensures
            old(self).wf() ==> final(self).wf(),
            *final(self) == old(self).with_regs(CPURegisters { sp: (old(self).registers.sp - 1) as u16, ..old(self).registers }),
    {
        reveal(LR35902CPU::wf);
        self.registers.sp = self.registers.sp - 1;
    }

    pub fn sp(&self) -> (r: u16)
        ensures
            r == self.registers.sp,
    {
        self.registers.sp
    }

    /// Flag `flag` as 0 or 1.
    pub fn get_flag(&self, flag: u8) -> (r: u8)
        ensures
            r == self.registers.flag(flag),
    {
        self.registers.get_flag(flag)
    }

    /// Updates the flags; -1 leaves a flag as it is.
    pub fn set_flags(&mut self, z: i8, n: i8, h: i8, c: i8)
        requires
            -1 <= z <= 1 && -1 <= n <= 3 && -1 <= h <= 7 && -1 <= c <= 15,
        ensures
            old(self).wf() ==> final(self).wf(),
            *final(self) == old(self).with_regs(old(self).registers.with_flags(z, n, h, c)),
    {
        reveal(LR35902CPU::wf);
        self.registers.set_flags(z, n, h, c);
    }

    /// Reads the byte at `addr`.
    pub fn read(&self, addr: u16) -> (r: u8)
        requires
            self.wf(),
            self.can_read(addr),
        ensures
            r == self.mem(addr),
    {
        reveal(LR35902CPU::wf);
        self.bus.read(addr)
    }

    /// Whether reading `addr` is safe.
    pub fn readable(&self, addr: u16) -> (r: bool)
        requires
            self.wf(),
        ensures
            r == self.can_read(addr),
    {
        reveal(LR35902CPU::wf);
        self.bus.readable(addr)
    }

    /// Whether reading the word at `addr` is safe.
    pub fn readable16(&self, addr: u16) -> (r: bool)
        requires
            self.wf(),
        ensures
            r == self.can_read16(addr),
    {
        reveal(LR35902CPU::wf);
        addr < 0xffff && self.bus.readable(addr) && self.bus.readable(addr + 1)
    }

    /// Whether the immediate byte at PC can be read and skipped.
    pub fn fetchable8(&self) -> (r: bool)
        requires
            self.wf(),
        ensures
            r == self.can_fetch8(),
    {
        self.registers.pc < 0xffff && self.readable(self.registers.pc)
    }

    /// Whether the immediate word at PC can be read and skipped.
    pub fn fetchable16(&self) -> (r: bool)
        requires
            self.wf(),
        ensures
            r == self.can_fetch16(),
    {
        self.registers.pc < 0xfffe && self.readable16(self.registers.pc)
    }

    /// Whether the instruction at PC can be fetched.
    pub fn fetchable(&self) -> (r: bool)
        requires
            self.wf(),
        ensures
            r == self.can_fetch_instruction(),
    {
        let pc = self.registers.pc;
        if pc == 0xffff || !self.readable(pc) {
            return false;
        }
        let b = self.read(pc);
        let opcode: u16 = if b == 0xcb {
            if pc >= 0xfffe || !self.readable(pc + 1) {
                return false;
            }
            0x100 + self.read(pc + 1) as u16
        } else {
            b as u16
        };
        decode(opcode).is_some()
    }

    /// Reads the little-endian word at `addr`.
    pub fn read16(&self, addr: u16) -> (r: u16)
        requires
            self.wf(),
            self.can_read16(addr),
        ensures
            r == self.mem16(addr),
    {
        reveal(LR35902CPU::wf);
        self.bus.read16(addr)
    }

    /// Writes a byte through the bus.
    pub fn write(&mut self, addr: u16, value: u8)
        requires
            old(self).wf(),
        ensures
            final(self).wf(),
            *final(self) == old(self).with_write(addr, value),
    {
        reveal(LR35902CPU::wf);
        self.bus.write(addr, value);
    }

    /// Reads the immediate byte at PC and moves PC past it.
    pub fn fetch8(&mut self) -> (r: u8)
        requires
            old(self).wf(),
            old(self).can_fetch8(),
        ensures
            final(self).wf(),
            r == old(self).imm8(),
            *final(self) == old(self).adv(1),
    {
        reveal(LR35902CPU::wf);
        let v = self.bus.read(self.registers.pc);
        self.registers.pc = self.registers.pc + 1;
        v
    }

    /// Reads the immediate word at PC and moves PC past it.
    pub fn fetch16(&mut self) -> (r: u16)
        requires
            old(self).wf(),
            old(self).can_fetch16(),
        ensures
            final(self).wf(),
            r == old(self).imm16(),
            *final(self) == old(self).adv(2),
    {
        reveal(LR35902CPU::wf);
        let v = self.bus.read16(self.registers.pc);
        self.registers.pc = self.registers.pc + 2;
        v
    }

    /// Fetches and decodes the instruction at PC (one byte, or two after a
    /// 0xCB prefix) and moves PC past it.
    pub fn set_instruction(&mut self)
        requires
            old(self).wf(),
            old(self).can_fetch_instruction(),
        ensures
            final(self).wf(),
            *final(self) == old(self).after_fetch(),
    {
        reveal(LR35902CPU::wf);
        let mut opcode: u16 = self.bus.read(self.registers.pc) as u16;
        self.registers.pc = self.registers.pc + 1;
        if opcode == 0xcb {
            let b = self.bus.read(self.registers.pc);
            assert(1u16 << 8u16 | (b as u16) == 0x100 + b) by { lemma_u16_with_byte(0, b); }
            opcode = 1u16 << 8u16 | b as u16;
            self.registers.pc = self.registers.pc + 1;
        }
        self.current_instruction = decode(opcode).unwrap();
    }
}

} // verus!
