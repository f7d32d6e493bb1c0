use vstd::prelude::*;
use crate::cpu::cpu::LR35902CPU;
use crate::cpu::instructions::execute::{execute, try_execute};
use crate::cpu::instructions::stack::push16;
use crate::cpu::interrupts::{Interrupts, JOYPAD, SERIAL, STAT, TIMER, VBLANK};
use crate::mem::bus::{bus_ram_byte, lemma_bus_read_after_write, Bus};

verus! {

/// Interrupt `i` in priority order (0 VBlank, 1 STAT, 2 timer, 3 serial,
/// 4 joypad): its IF / IE bit and its handler address.
pub open spec fn int_vector(i: int) -> (u8, u16) {
    if i == 0 { (VBLANK, 0x40) }
    else if i == 1 { (STAT, 0x48) }
    else if i == 2 { (TIMER, 0x50) }
    else if i == 3 { (SERIAL, 0x58) }
    else { (JOYPAD, 0x60) }
}

/// Whether interrupt `i` is both requested and enabled.
pub open spec fn int_ready(ints: Interrupts, i: int) -> bool {
    let b = int_vector(i).0;
    ints.flags & b == b && ints.enable & b == b
}

/// The interrupt served first, the lowest ready one from `from` on.
pub open spec fn first_ready(ints: Interrupts, from: int) -> Option<int>
    decreases 5 - from,
{
    if from >= 5 {
        None
    } else if int_ready(ints, from) {
        Some(from)
    } else {
        first_ready(ints, from + 1)
    }
}

impl LR35902CPU {
    /// The CPU after one interrupt is served, if any is ready: PC pushed,
    /// its IF bit cleared, IME off, the CPU awake, PC at the handler.
    pub open spec fn after_handle_ints(self) -> LR35902CPU {
        match first_ready(self.bus.interrupts, 0) {
            None => self,
            Some(i) => {
                let (b, addr) = int_vector(i);
                let p = self.after_push16(self.registers.pc).with_pc(addr);
                let ints = Interrupts { flags: p.bus.interrupts.flags ^ b, ..p.bus.interrupts };
                LR35902CPU {
                    halt: false,
                    int_master: false,
                    bus: crate::mem::bus::Bus { interrupts: ints, ..p.bus },
                    ..p
                }
            },
        }
    }

    /// The CPU after the instruction part of a tick: unless halted, the next
    /// instruction fetched and run.
    pub open spec fn after_instruction(self) -> LR35902CPU {
        if self.halt { self } else { self.after_fetch().after_execute() }
    }

    /// The CPU after the interrupt part of a tick, run on `c`: a pending
    /// request wakes it, IME serves the first ready interrupt, and a pending EI
    /// turns IME on.
    pub open spec fn after_interrupts(c: LR35902CPU) -> LR35902CPU {
        let woken = if c.bus.interrupts.flags > 0 { LR35902CPU { halt: false, ..c } } else { c };
        let served = if woken.int_master { woken.after_handle_ints() } else { woken };
        if served.enabling_ints {
            LR35902CPU { enabling_ints: false, int_master: true, ..served }
        } else {
            served
        }
    }

    /// The CPU after one `tick`.
    pub open spec fn after_tick(self) -> LR35902CPU {
        LR35902CPU::after_interrupts(self.after_instruction())
    }

    /// The M-cycles one `tick` reports.
    pub open spec fn tick_cycles(self) -> u8 {
        if self.halt { 1 } else { self.after_fetch().exec_cycles() }
    }

    /// Whether one `tick` can run: the next instruction (unless halted) can be
    /// fetched and run, and an interrupt that gets served can push PC.
    pub open spec fn tick_ok(self) -> bool {
        let c = self.after_instruction();
        let woken = if c.bus.interrupts.flags > 0 { LR35902CPU { halt: false, ..c } } else { c };
        &&& !self.halt ==> self.can_fetch_instruction() && self.after_fetch().exec_ok()
        &&& (woken.int_master && first_ready(woken.bus.interrupts, 0) is Some) ==> woken.registers.sp >= 2
    }
}

/// Serves the first ready interrupt, if any.
fn handle_ints(cpu: &mut LR35902CPU)
    requires
        old(cpu).wf(),
        first_ready(old(cpu).bus.interrupts, 0) is Some ==> old(cpu).registers.sp >= 2,
    ensures
        final(cpu).wf(),
        *final(cpu) == old(cpu).after_handle_ints(),
{
    let vectors: [(u8, u16); 5] = [(VBLANK, 0x40), (STAT, 0x48), (TIMER, 0x50), (SERIAL, 0x58), (JOYPAD, 0x60)];
    let ints = cpu.bus.interrupts;
    let mut i: usize = 0;
    while i < 5
        invariant
            0 <= i <= 5,
            *cpu == *old(cpu),
            cpu.wf(),
            first_ready(old(cpu).bus.interrupts, 0) is Some ==> old(cpu).registers.sp >= 2,
            ints == old(cpu).bus.interrupts,
            vectors@ == seq![(VBLANK, 0x40u16), (STAT, 0x48u16), (TIMER, 0x50u16), (SERIAL, 0x58u16), (JOYPAD, 0x60u16)],
            first_ready(ints, 0) == first_ready(ints, i as int),
        decreases 5 - i,
    {
        let (b, addr) = vectors[i];
        assert((b, addr) == int_vector(i as int));
        if ints.flags & b == b && ints.enable & b == b {
            let pc = cpu.pc();
            push16(cpu, pc);
            cpu.registers.pc = addr;
            cpu.bus.interrupts.flags = cpu.bus.interrupts.flags ^ b;
            cpu.halt = false;
            cpu.int_master = false;
            proof { reveal(LR35902CPU::wf); }
            return;
        }
        i = i + 1;
    }
}

impl LR35902CPU {
    /// One CPU step without the devices: unless halted, fetch and run one
    /// instruction; then wake on a pending request, serve an interrupt when
    /// IME is on, and finish a pending EI. The result is the M-cycles taken.
    pub fn tick(&mut self) -> (cycles: u8)
        requires
            old(self).wf(),
            old(self).tick_ok(),
        ensures
            final(self).wf(),
            *final(self) == old(self).after_tick(),
            cycles == old(self).tick_cycles(),
    {
        let mut cycles: u8 = 1;
        if !self.halt {
            self.set_instruction();
            cycles = execute(self);
        }
        if self.bus.interrupts.flags > 0 {
            self.halt = false;
            proof { reveal(LR35902CPU::wf); }
        }
        if self.int_master {
            handle_ints(self);
        }
        if self.enabling_ints {
            self.enabling_ints = false;
            self.int_master = true;
            proof { reveal(LR35902CPU::wf); }
        }
        cycles
    }
}

/// Whether some interrupt is both requested and enabled.
fn ready_interrupt(ints: Interrupts) -> (r: bool)
    ensures
        r == (first_ready(ints, 0) is Some),
{
    let bits: [u8; 5] = [VBLANK, STAT, TIMER, SERIAL, JOYPAD];
    let mut i: usize = 0;
    while i < 5
        invariant
            0 <= i <= 5,
            bits@ == seq![VBLANK, STAT, TIMER, SERIAL, JOYPAD],
            first_ready(ints, 0) == first_ready(ints, i as int),
        decreases 5 - i,
    {
        let b = bits[i];
        assert(b == int_vector(i as int).0);
        if ints.flags & b == b && ints.enable & b == b {
            return true;
        }
        i = i + 1;
    }
    false
}

impl LR35902CPU {
    /// `tick` with its checks made as it goes: `None` (the CPU possibly
    /// part-way through the tick) when it cannot run.
    pub fn try_tick(&mut self) -> (r: Option<u8>)
        requires
            old(self).wf(),
        ensures
            final(self).wf(),
            r is Some ==> old(self).tick_ok() && *final(self) == old(self).after_tick()
                && r == Some(old(self).tick_cycles()),
            r is None ==> !old(self).tick_ok(),
    {
        let mut cycles: u8 = 1;
        if !self.halt {
            if !self.fetchable() {
                return None;
            }
            self.set_instruction();
            match try_execute(self) {
                Some(c) => {
                    cycles = c;
                },
                None => {
                    return None;
                },
            }
        }
        if self.bus.interrupts.flags > 0 {
            self.halt = false;
            proof { reveal(LR35902CPU::wf); }
        }
        if self.int_master {
            if ready_interrupt(self.bus.interrupts) && self.registers.sp < 2 {
                return None;
            }
            handle_ints(self);
        }
        if self.enabling_ints {
            self.enabling_ints = false;
            self.int_master = true;
            proof { reveal(LR35902CPU::wf); }
        }
        Some(cycles)
    }
}


/// Which interrupts are ready when `k` is the lowest bit set in both IF (`f`)
/// and IE (`e`): none below `k`, and `k` itself.
proof fn lemma_lowest_ready_bits(f: u8, e: u8, k: u8)
    by (bit_vector)
    requires
        k < 5,
        (f & e) & (1u8 << k) != 0,
        (f & e) & !(0xffu8 << k) == 0,
    ensures
        k == 0 ==> f & 1 == 1 && e & 1 == 1,
        k > 0 ==> !(f & 1 == 1 && e & 1 == 1),
        k == 1 ==> f & 2 == 2 && e & 2 == 2,
        k > 1 ==> !(f & 2 == 2 && e & 2 == 2),
        k == 2 ==> f & 4 == 4 && e & 4 == 4,
        k > 2 ==> !(f & 4 == 4 && e & 4 == 4),
        k == 3 ==> f & 8 == 8 && e & 8 == 8,
        k > 3 ==> !(f & 8 == 8 && e & 8 == 8),
        k == 4 ==> f & 16 == 16 && e & 16 == 16,
        f ^ (1u8 << k) == f & !(1u8 << k),
        k == 0 ==> (1u8 << k) == 1,
        k == 1 ==> (1u8 << k) == 2,
        k == 2 ==> (1u8 << k) == 4,
        k == 3 ==> (1u8 << k) == 8,
        k == 4 ==> (1u8 << k) == 16,
{
}

/// Serving an interrupt: when bit `k` (VBlank 0, STAT 1, timer 2, serial 3,
/// joypad 4) is the lowest one both requested in IF and enabled in IE, the
/// CPU jumps to its handler at 0x40 + 8 * k with PC pushed (SP two lower),
/// IME off and the CPU awake; IF loses bit `k` and keeps the others (unless
/// the pushed bytes land on IF itself).
pub proof fn lemma_interrupt_served(cpu: LR35902CPU, k: u8)
    requires
        k < 5,
        (cpu.bus.interrupts.flags & cpu.bus.interrupts.enable) & (1u8 << k) != 0,
        (cpu.bus.interrupts.flags & cpu.bus.interrupts.enable) & !(0xffu8 << k) == 0,
        cpu.registers.sp >= 2,
    ensures
        cpu.after_handle_ints().registers.pc == 0x40 + 8 * k,
        cpu.after_handle_ints().registers.sp == cpu.registers.sp - 2,
        !cpu.after_handle_ints().int_master,
        !cpu.after_handle_ints().halt,
        cpu.registers.sp - 1 != 0xff0f && cpu.registers.sp - 2 != 0xff0f ==> cpu.after_handle_ints().bus.interrupts
            == (Interrupts { flags: cpu.bus.interrupts.flags & !(1u8 << k), ..cpu.bus.interrupts }),
{
    let f = cpu.bus.interrupts.flags;
    let e = cpu.bus.interrupts.enable;
    lemma_lowest_ready_bits(f, e, k);
    reveal_with_fuel(first_ready, 6);
    assert(first_ready(cpu.bus.interrupts, 0) == Some(k as int));
    reveal(crate::mem::bus::Bus::after_write);
    let pc = cpu.registers.pc;
    let p1 = cpu.after_push8((pc / 256) as u8);
    let p2 = p1.after_push8((pc % 256) as u8);
    assert(p1.registers.sp == cpu.registers.sp - 1);
    if cpu.registers.sp - 1 != 0xff0f && cpu.registers.sp - 2 != 0xff0f {
        assert(p1.bus.interrupts == cpu.bus.interrupts);
        assert(p2.bus.interrupts == cpu.bus.interrupts);
    }
}


/// Serving an interrupt saves the interrupted PC on the stack: with the two
/// stack bytes in RAM, the byte below SP then reads as PC's high byte and the
/// next one down as its low byte, so a RET from the handler returns there.
pub proof fn lemma_interrupt_pushes_pc(cpu: LR35902CPU, k: u8)
    requires
        k < 5,
        (cpu.bus.interrupts.flags & cpu.bus.interrupts.enable) & (1u8 << k) != 0,
        (cpu.bus.interrupts.flags & cpu.bus.interrupts.enable) & !(0xffu8 << k) == 0,
        cpu.registers.sp >= 2,
        cpu.bus.wf(),
        bus_ram_byte((cpu.registers.sp - 1) as u16),
        bus_ram_byte((cpu.registers.sp - 2) as u16),
    ensures
        cpu.after_handle_ints().bus.read_value((cpu.registers.sp - 1) as u16) == (cpu.registers.pc / 256) as u8,
        cpu.after_handle_ints().bus.read_value((cpu.registers.sp - 2) as u16) == (cpu.registers.pc % 256) as u8,
{
    let f = cpu.bus.interrupts.flags;
    let e = cpu.bus.interrupts.enable;
    lemma_lowest_ready_bits(f, e, k);
    reveal_with_fuel(first_ready, 6);
    assert(first_ready(cpu.bus.interrupts, 0) == Some(k as int));
    let pc = cpu.registers.pc;
    let hi_addr = (cpu.registers.sp - 1) as u16;
    let lo_addr = (cpu.registers.sp - 2) as u16;
    let b1 = cpu.bus.after_write(hi_addr, (pc / 256) as u8);
    let b2 = b1.after_write(lo_addr, (pc % 256) as u8);
    lemma_bus_read_after_write(cpu.bus, hi_addr, (pc / 256) as u8, hi_addr);
    lemma_bus_read_after_write(b1, lo_addr, (pc % 256) as u8, hi_addr);
    let done = cpu.after_handle_ints().bus;
    assert(done == Bus { interrupts: done.interrupts, ..b2 });
    reveal(Bus::read_value);
}

} // verus!
