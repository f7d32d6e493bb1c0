use vstd::prelude::*;
use crate::cpu::clock::TICKS_PER_FRAME;
use crate::cpu::cpu::LR35902CPU;
use crate::cpu::interrupts::{Interrupts, TIMER};
use crate::io::IOMMU;
use crate::io::audio::apu::{DigitalSample, APU};
use crate::mem::bus::Bus;

verus! {

/// What one `step` reports.
#[derive(Clone, Copy, Debug, PartialEq, Eq, Structural)]
pub struct StepResult {
    /// M-cycles the instruction (or the halted wait) took.
    pub cycles: u8,
    /// The PPU finished a frame (it is in the PPU's `vbuf`).
    pub frame_ready: bool,
    /// A frame's worth of clock cycles has passed since the last report of it.
    pub frame_time_over: bool,
}

impl LR35902CPU {
    /// The CPU after the timer's part of an M-cycle.
    pub open spec fn after_timer_mcycle(self) -> LR35902CPU {
        let t = self.bus.io.timer;
        let ints = self.bus.interrupts;
        let flags = if t.pending_overflow { ints.flags | TIMER } else { ints.flags };
        LR35902CPU {
            bus: Bus {
                io: IOMMU { timer: t.after_tick(), ..self.bus.io },
                interrupts: Interrupts { flags, ..ints },
                ..self.bus
            },
            ..self
        }
    }

    /// The APU after its part of an M-cycle (clocked with `div_apu`, and
    /// the sample clock counted while sound is on).
    pub open spec fn apu_after_mcycle(a: APU, div_apu: bool) -> APU {
        let t = a.after_tick(div_apu);
        if a.is_on() { APU { sample_clock: t.next_sample_clock(), ..t } } else { t }
    }

    /// The CPU after the timer and APU parts of an M-cycle.
    pub open spec fn after_sound_mcycle(self) -> LR35902CPU {
        let div_apu = self.bus.io.timer.tick_div_apu(self.clock.speed_mode);
        let c = self.after_timer_mcycle();
        let a = LR35902CPU::apu_after_mcycle(c.bus.io.apu, div_apu);
        LR35902CPU { bus: Bus { io: IOMMU { apu: a, ..c.bus.io }, ..c.bus }, ..c }
    }

    /// The CPU after the DMA part of an M-cycle.
    pub open spec fn after_dma_mcycle(self) -> LR35902CPU {
        let c = self.after_sound_mcycle();
        LR35902CPU { bus: c.bus.after_dma(), ..c }
    }

    /// The CPU after one M-cycle of the devices: timer, APU, DMA, then PPU.
    #[verifier::opaque]
    pub open spec fn after_mcycle(self) -> LR35902CPU {
        let c = self.after_dma_mcycle();
        let p = c.bus.io.ppu;
        let ints = c.bus.interrupts;
        LR35902CPU {
            bus: Bus {
                io: IOMMU { ppu: p.after_ppu_tick(), ..c.bus.io },
                interrupts: Interrupts { flags: ints.flags | p.tick_requests(), ..ints },
                ..c.bus
            },
            ..c
        }
    }

    /// Whether one M-cycle of the devices can run.
    #[verifier::opaque]
    pub open spec fn mcycle_ok(self) -> bool {
        &&& self.after_timer_mcycle().bus.io.apu.is_on() ==> self.after_timer_mcycle().bus.io.apu.channel3.tick_safe()
        &&& self.after_sound_mcycle().bus.dma_ok()
        &&& self.after_dma_mcycle().bus.io.ppu.tick_ok()
    }

    /// The output sample an M-cycle produces, if one is due.
    #[verifier::opaque]
    pub open spec fn mcycle_sample(self) -> Option<DigitalSample> {
        let div_apu = self.bus.io.timer.tick_div_apu(self.clock.speed_mode);
        let a = self.after_timer_mcycle().bus.io.apu;
        let t = a.after_tick(div_apu);
        if a.is_on() && t.sample_due_spec() { Some(t.sample_spec()) } else { None }
    }

    /// Whether the PPU finishes a frame in this M-cycle.
    #[verifier::opaque]
    pub open spec fn mcycle_frame(self) -> bool {
        self.after_dma_mcycle().bus.io.ppu.tick_ends_frame()
    }

    /// The CPU after `n` M-cycles of the devices.
    pub open spec fn after_mcycles(self, n: nat) -> LR35902CPU
        decreases n,
    {
        if n == 0 { self } else { self.after_mcycles((n - 1) as nat).after_mcycle() }
    }

    /// Whether `n` M-cycles of the devices can run.
    pub open spec fn mcycles_ok(self, n: nat) -> bool
        decreases n,
    {
        n == 0 || (self.mcycles_ok((n - 1) as nat) && self.after_mcycles((n - 1) as nat).mcycle_ok())
    }

    /// The output samples `n` M-cycles produce.
    pub open spec fn mcycles_samples(self, n: nat) -> Seq<DigitalSample>
        decreases n,
    {
        if n == 0 {
            Seq::empty()
        } else {
            let prev = self.mcycles_samples((n - 1) as nat);
            match self.after_mcycles((n - 1) as nat).mcycle_sample() {
                Some(s) => prev.push(s),
                None => prev,
            }
        }
    }

    /// Whether the PPU finishes a frame within `n` M-cycles.
    pub open spec fn mcycles_frame(self, n: nat) -> bool
        decreases n,
    {
        n > 0 && (self.mcycles_frame((n - 1) as nat) || self.after_mcycles((n - 1) as nat).mcycle_frame())
    }

    /// Whether a `step` can run.
    pub open spec fn step_ok(self) -> bool {
        self.tick_ok() && self.after_tick().mcycles_ok(self.tick_cycles() as nat)
    }

    /// The CPU after a `step`.
    pub open spec fn after_step(self) -> LR35902CPU {
        let c = self.after_tick().after_mcycles(self.tick_cycles() as nat);
        let ticks = c.clock.clock_ticks + self.tick_cycles() * 4;
        LR35902CPU {
            clock: crate::cpu::clock::Clock {
                clock_ticks: if ticks >= TICKS_PER_FRAME { 0 } else { ticks as u32 },
                ..c.clock
            },
            ..c
        }
    }

    /// What a `step` reports.
    pub open spec fn step_result(self) -> StepResult {
        let c = self.after_tick().after_mcycles(self.tick_cycles() as nat);
        StepResult {
            cycles: self.tick_cycles(),
            frame_ready: self.after_tick().mcycles_frame(self.tick_cycles() as nat),
            frame_time_over: c.clock.clock_ticks + self.tick_cycles() * 4 >= TICKS_PER_FRAME,
        }
    }
}

proof fn lemma_mcycles_ok_prefix(c: LR35902CPU, i: nat, n: nat)
    requires
        i < n,
        c.mcycles_ok(n),
    ensures
        c.after_mcycles(i).mcycle_ok(),
        c.mcycles_ok(i + 1),
    decreases n,
{
    if i + 1 < n {
        lemma_mcycles_ok_prefix(c, i, (n - 1) as nat);
    }
}

/// The timer's part of an M-cycle; the result clocks the APU frame sequencer.
fn timer_mcycle(cpu: &mut LR35902CPU) -> (div_apu: bool)
    requires
        old(cpu).wf(),
    ensures
        final(cpu).wf(),
        *final(cpu) == old(cpu).after_timer_mcycle(),
        div_apu == old(cpu).bus.io.timer.tick_div_apu(old(cpu).clock.speed_mode),
{
    proof { reveal(LR35902CPU::wf); }
    let speed = cpu.clock.speed_mode;
    cpu.bus.io.timer.tick(speed, &mut cpu.bus.interrupts)
}

/// The APU's part of an M-cycle, with the output sample if one is due.
fn apu_mcycle(cpu: &mut LR35902CPU, div_apu: bool) -> (sample: Option<DigitalSample>)
    requires
        old(cpu).wf(),
        old(cpu).bus.io.apu.is_on() ==> old(cpu).bus.io.apu.channel3.tick_safe(),
    ensures
        final(cpu).wf(),
        *final(cpu) == (LR35902CPU {
            bus: Bus {
                io: IOMMU { apu: LR35902CPU::apu_after_mcycle(old(cpu).bus.io.apu, div_apu), ..old(cpu).bus.io },
                ..old(cpu).bus
            },
            ..*old(cpu)
        }),
        sample == ({
            let a = old(cpu).bus.io.apu;
            let t = a.after_tick(div_apu);
            if a.is_on() && t.sample_due_spec() { Some(t.sample_spec()) } else { None }
        }),
{
    proof { reveal(LR35902CPU::wf); }
    let on = cpu.bus.io.apu.tick(div_apu);
    if on && cpu.bus.io.apu.sample_due() {
        Some(cpu.bus.io.apu.digital_sample())
    } else {
        None
    }
}

/// The DMA part of an M-cycle.
fn dma_mcycle(cpu: &mut LR35902CPU)
    requires
        old(cpu).wf(),
        old(cpu).bus.dma_ok(),
    ensures
        final(cpu).wf(),
        *final(cpu) == (LR35902CPU { bus: old(cpu).bus.after_dma(), ..*old(cpu) }),
{
    proof { reveal(LR35902CPU::wf); }
    cpu.bus.tick();
}

/// The PPU's part of an M-cycle; the result tells whether a frame was finished.
fn ppu_mcycle(cpu: &mut LR35902CPU) -> (frame: bool)
    requires
        old(cpu).wf(),
        old(cpu).bus.io.ppu.tick_ok(),
    ensures
        final(cpu).wf(),
        *final(cpu) == (LR35902CPU {
            bus: Bus {
                io: IOMMU { ppu: old(cpu).bus.io.ppu.after_ppu_tick(), ..old(cpu).bus.io },
                interrupts: Interrupts {
                    flags: old(cpu).bus.interrupts.flags | old(cpu).bus.io.ppu.tick_requests(),
                    ..old(cpu).bus.interrupts
                },
                ..old(cpu).bus
            },
            ..*old(cpu)
        }),
        frame == old(cpu).bus.io.ppu.tick_ends_frame(),
{
    proof { reveal(LR35902CPU::wf); }
    cpu.bus.io.ppu.tick(&mut cpu.bus.interrupts)
}

/// One M-cycle of the devices.
fn mcycle(cpu: &mut LR35902CPU, samples: &mut Vec<DigitalSample>) -> (frame: bool)
    requires
        old(cpu).wf(),
        old(cpu).mcycle_ok(),
    ensures
        final(cpu).wf(),
        *final(cpu) == old(cpu).after_mcycle(),
        final(samples)@ == match old(cpu).mcycle_sample() {
            Some(s) => old(samples)@.push(s),
            None => old(samples)@,
        },
        frame == old(cpu).mcycle_frame(),
{
    proof {
        reveal(LR35902CPU::after_mcycle);
        reveal(LR35902CPU::mcycle_ok);
        reveal(LR35902CPU::mcycle_sample);
        reveal(LR35902CPU::mcycle_frame);
    }
    let div_apu = timer_mcycle(cpu);
    let sample = apu_mcycle(cpu, div_apu);
    if let Some(s) = sample {
        samples.push(s);
    }
    dma_mcycle(cpu);
    ppu_mcycle(cpu)
}

impl LR35902CPU {
    /// One step: a `tick` of the CPU, then as many M-cycles of the timer, APU,
    /// DMA and PPU as it took, then the frame clock. The output samples due
    /// meanwhile are added to `samples`.
    pub fn step(&mut self, samples: &mut Vec<DigitalSample>) -> (r: StepResult)
        requires
            old(self).wf(),
            old(self).step_ok(),
        ensures
            final(self).wf(),
            *final(self) == old(self).after_step(),
            r == old(self).step_result(),
            final(samples)@ == old(samples)@ + old(self).after_tick().mcycles_samples(old(self).tick_cycles() as nat),
    {
        let cycles = self.tick();
        let ghost start = *self;
        let ghost s0 = samples@;
        let mut frame_ready = false;
        let mut i: u8 = 0;
        while i < cycles
            invariant
                i <= cycles,
                start.mcycles_ok(cycles as nat),
                self.wf(),
                *self == start.after_mcycles(i as nat),
                samples@ == s0 + start.mcycles_samples(i as nat),
                frame_ready == start.mcycles_frame(i as nat),
            decreases cycles - i,
        {
            proof { lemma_mcycles_ok_prefix(start, i as nat, cycles as nat); }
            let f = mcycle(self, samples);
            frame_ready = frame_ready || f;
            proof {
                assert(samples@ =~= s0 + start.mcycles_samples((i + 1) as nat));
            }
            i = i + 1;
        }
        proof { reveal(LR35902CPU::wf); }
        let frame_time_over = self.clock.tick(cycles as u32 * 4);
        StepResult { cycles, frame_ready, frame_time_over }
    }
}

/// One M-cycle of the devices with each part checked before it runs.
#[verifier::rlimit(40)]
fn try_mcycle(cpu: &mut LR35902CPU, samples: &mut Vec<DigitalSample>) -> (r: Option<bool>)
    requires
        old(cpu).wf(),
    ensures
        final(cpu).wf(),
        r is Some ==> old(cpu).mcycle_ok() && *final(cpu) == old(cpu).after_mcycle()
            && final(samples)@ == match old(cpu).mcycle_sample() {
                Some(s) => old(samples)@.push(s),
                None => old(samples)@,
            }
            && r == Some(old(cpu).mcycle_frame()),
        r is None ==> !old(cpu).mcycle_ok(),
{
    proof {
        reveal(LR35902CPU::after_mcycle);
        reveal(LR35902CPU::mcycle_ok);
        reveal(LR35902CPU::mcycle_sample);
        reveal(LR35902CPU::mcycle_frame);
    }
    let div_apu = timer_mcycle(cpu);
    let ghost after_timer = *cpu;
    let on = cpu.bus.io.apu.enabled();
    let c3 = &cpu.bus.io.apu.channel3;
    if on && c3.enabled && c3.dac_enabled && c3.div == 0 {
        assert(!(after_timer.bus.io.apu.is_on() ==> after_timer.bus.io.apu.channel3.tick_safe()));
        return None;
    }
    let sample = apu_mcycle(cpu, div_apu);
    if let Some(s) = sample {
        samples.push(s);
    }
    let ghost before_dma = *cpu;
    proof { reveal(LR35902CPU::wf); }
    if !cpu.bus.try_tick() {
        return None;
    }
    assert(*cpu == LR35902CPU { bus: before_dma.bus.after_dma(), ..before_dma });
    proof { reveal(LR35902CPU::wf); }
    let f = cpu.bus.io.ppu.try_tick(&mut cpu.bus.interrupts);
    f
}

impl LR35902CPU {
    /// `step` with every part checked before it runs: `None` (the machine
    /// possibly part-way through the step) when the step cannot run.
    pub fn try_step(&mut self, samples: &mut Vec<DigitalSample>) -> (r: Option<StepResult>)
        requires
            old(self).wf(),
        ensures
            final(self).wf(),
            r is Some ==> old(self).step_ok() && *final(self) == old(self).after_step()
                && r == Some(old(self).step_result())
                && final(samples)@ == old(samples)@ + old(self).after_tick().mcycles_samples(old(self).tick_cycles() as nat),
            r is None ==> !old(self).step_ok(),
    {
        let cycles = match self.try_tick() {
            Some(c) => c,
            None => {
                return None;
            },
        };
        let ghost start = *self;
        let ghost s0 = samples@;
        let mut frame_ready = false;
        let mut i: u8 = 0;
        while i < cycles
            invariant
                i <= cycles,
                start == old(self).after_tick(),
                cycles == old(self).tick_cycles(),
                old(self).tick_ok(),
                start.mcycles_ok(i as nat),
                self.wf(),
                *self == start.after_mcycles(i as nat),
                samples@ == s0 + start.mcycles_samples(i as nat),
                frame_ready == start.mcycles_frame(i as nat),
            decreases cycles - i,
        {
            match try_mcycle(self, samples) {
                Some(f) => {
                    frame_ready = frame_ready || f;
                },
                None => {
                    proof {
                        if start.mcycles_ok(cycles as nat) {
                            lemma_mcycles_ok_prefix(start, i as nat, cycles as nat);
                        }
                    }
                    return None;
                },
            }
            proof {
                assert(samples@ =~= s0 + start.mcycles_samples((i + 1) as nat));
            }
            i = i + 1;
        }
        proof { reveal(LR35902CPU::wf); }
        let frame_time_over = self.clock.tick(cycles as u32 * 4);
        Some(StepResult { cycles, frame_ready, frame_time_over })
    }
}

} // verus!
