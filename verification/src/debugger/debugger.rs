use vstd::prelude::*;
use crate::cpu::cpu::LR35902CPU;
use crate::debugger::commands::DebuggerCommand;
use crate::debugger::metrics::{CpuMetricFields, CpuMetrics, Metrics, MetricsHandler, PpuMetricFields, PpuMetrics};

verus! {

/// The first position of `a` in `s` from `i` on, or -1.
pub open spec fn find_from(s: Seq<u16>, a: u16, i: int) -> int
    decreases s.len() - i,
{
    if i < 0 || i >= s.len() {
        -1
    } else if s[i] == a {
        i
    } else {
        find_from(s, a, i + 1)
    }
}

/// `s` with `a` removed where it first occurs, or added at the end when absent.
pub open spec fn toggled(s: Seq<u16>, a: u16) -> Seq<u16> {
    let i = find_from(s, a, 0);
    if i == -1 { s.push(a) } else { s.remove(i) }
}

proof fn lemma_find_from(s: Seq<u16>, a: u16, i: int)
    requires
        0 <= i <= s.len(),
    ensures
        find_from(s, a, i) == -1 <==> (forall|j: int| i <= j < s.len() ==> s[j] != a),
        find_from(s, a, i) != -1 ==> i <= find_from(s, a, i) < s.len() && s[find_from(s, a, i)] == a,
    decreases s.len() - i,
{
    if i < s.len() {
        lemma_find_from(s, a, i + 1);
    }
}

/// Toggling a breakpoint flips whether its address is a breakpoint and leaves
/// every other address as it was; a list of breakpoints without repeats stays
/// without repeats.
#[verifier::spinoff_prover]
#[verifier::rlimit(40)]
pub proof fn lemma_breakpoint_toggle(s: Seq<u16>, a: u16)
    requires
        s.no_duplicates(),
    ensures
        toggled(s, a).contains(a) == !s.contains(a),
        toggled(s, a).no_duplicates(),
        forall|b: u16| b != a ==> (toggled(s, a).contains(b) == s.contains(b)),
{
    lemma_find_from(s, a, 0);
    let i = find_from(s, a, 0);
    let t = toggled(s, a);
    if i == -1 {
        assert(!s.contains(a));
        assert(t[s.len() as int] == a);
        assert forall|b: u16| b != a implies (t.contains(b) == s.contains(b)) by {
            if s.contains(b) {
                let k = choose|k: int| 0 <= k < s.len() && s[k] == b;
                assert(t[k] == b);
            }
        }
    } else {
        assert(s.contains(a));
        assert(!t.contains(a)) by {
            if t.contains(a) {
                let k = choose|k: int| 0 <= k < t.len() && t[k] == a;
                if k < i {
                    assert(s[k] == a);
                } else {
                    assert(s[k + 1] == a);
                }
            }
        }
        assert forall|b: u16| b != a implies (t.contains(b) == s.contains(b)) by {
            if s.contains(b) {
                let k = choose|k: int| 0 <= k < s.len() && s[k] == b;
                if k < i {
                    assert(t[k] == b);
                } else {
                    assert(t[k - 1] == b);
                }
            }
            if t.contains(b) {
                let k = choose|k: int| 0 <= k < t.len() && t[k] == b;
                if k < i {
                    assert(s[k] == b);
                } else {
                    assert(s[k + 1] == b);
                }
            }
        }
    }
}

/// The CPU measures after a step of `cycles` M-cycles that took `nanos`
/// nanoseconds: one more instruction, the cycles and the time, each
/// registered while the measures are on and unless its counter would
/// overflow.
pub open spec fn cpu_step_recorded(h: MetricsHandler<CpuMetrics>, cycles: u8, nanos: u64) -> MetricsHandler<CpuMetrics> {
    if !h.enabled {
        h
    } else {
        let m0 = h.metrics;
        let m1 = if m0.instructions.count < u32::MAX { m0.after_count(CpuMetricFields::INSTRUCTIONS, 1) } else { m0 };
        let m2 = if m1.cycles.count + cycles <= u32::MAX {
            m1.after_count(CpuMetricFields::CYCLES, cycles as u32)
        } else {
            m1
        };
        let m3 = if m2.tick_time.total + nanos <= u64::MAX && m2.tick_time.len < usize::MAX {
            m2.after_mean_time(CpuMetricFields::TICK_TIME, nanos)
        } else {
            m2
        };
        MetricsHandler { metrics: m3, ..h }
    }
}

/// The PPU measures after a step: one more frame when the step finished one,
/// while the measures are on and unless the counter would overflow.
pub open spec fn ppu_step_recorded(h: MetricsHandler<PpuMetrics>, frame: bool) -> MetricsHandler<PpuMetrics> {
    if h.enabled && frame && h.metrics.frame_rate.count < u32::MAX {
        MetricsHandler { metrics: h.metrics.after_count(PpuMetricFields::FRAME_RATE, 1), ..h }
    } else {
        h
    }
}

/// Nanoseconds between two publications of the measures.
pub const METRICS_INTERVAL_NANOS: u64 = 1_000_000_000;

/// The debugger's state: breakpoints and single-stepping, and the measures
/// of the CPU and PPU (collected while it is enabled).
pub struct Debugger {
    pub enabled: bool,
    pub breakpoints: Vec<u16>,
    pub stepping: bool,
    pub do_step: bool,
    pub resume: bool,
    pub cpu_metrics: MetricsHandler<CpuMetrics>,
    pub ppu_metrics: MetricsHandler<PpuMetrics>,
}

impl Debugger {
    /// A debugger (stepping from the start when enabled) created at time `now`.
    pub fn new(enabled: bool, now: u64) -> (r: Self)
        ensures
            r.enabled == enabled && r.stepping == enabled,
            !r.do_step && !r.resume,
            r.breakpoints@ == Seq::<u16>::empty(),
            r.cpu_metrics.enabled == enabled,
            !r.ppu_metrics.enabled,
            r.cpu_metrics.metrics == CpuMetrics::initial(),
            r.ppu_metrics.metrics == PpuMetrics::initial(),
            r.cpu_metrics.update_interval == METRICS_INTERVAL_NANOS && r.cpu_metrics.last_update == now,
            r.ppu_metrics.update_interval == METRICS_INTERVAL_NANOS && r.ppu_metrics.last_update == now,
    {
        let mut cpu_metrics = MetricsHandler::<CpuMetrics>::new(METRICS_INTERVAL_NANOS, now);
        cpu_metrics.set_enabled(enabled);
        Debugger {
            enabled,
            stepping: enabled,
            do_step: false,
            resume: false,
            breakpoints: Vec::new(),
            cpu_metrics,
            ppu_metrics: MetricsHandler::<PpuMetrics>::new(METRICS_INTERVAL_NANOS, now),
        }
    }

    /// Adds a breakpoint at `addr`, or removes it when there is one.
    pub fn breakpoint(&mut self, addr: u16)
        ensures
            final(self).breakpoints@ == toggled(old(self).breakpoints@, addr),
            final(self).enabled == old(self).enabled,
            final(self).stepping == old(self).stepping,
            final(self).do_step == old(self).do_step,
            final(self).resume == old(self).resume,
            final(self).cpu_metrics == old(self).cpu_metrics,
            final(self).ppu_metrics == old(self).ppu_metrics,
    {
        let mut i: usize = 0;
        let n = self.breakpoints.len();
        while i < n
            invariant
                n == self.breakpoints@.len(),
                i <= n,
                *self == *old(self),
                find_from(self.breakpoints@, addr, 0) == find_from(self.breakpoints@, addr, i as int),
            decreases n - i,
        {
            if self.breakpoints[i] == addr {
                self.breakpoints.remove(i);
                return;
            }
            i = i + 1;
        }
        self.breakpoints.push(addr);
    }

    /// Turns the debugger (and its measures) on or off.
    pub fn set_enabled(&mut self, enabled: bool)
        ensures
            final(self).enabled == enabled,
            final(self).cpu_metrics == (MetricsHandler { enabled, ..old(self).cpu_metrics }),
            final(self).ppu_metrics == (MetricsHandler { enabled, ..old(self).ppu_metrics }),
            final(self).breakpoints@ == old(self).breakpoints@,
            final(self).stepping == old(self).stepping,
            final(self).do_step == old(self).do_step,
            final(self).resume == old(self).resume,
    {
        self.enabled = enabled;
        self.cpu_metrics.set_enabled(enabled);
        self.ppu_metrics.set_enabled(enabled);
    }

    /// Acts on a command from the user interface, if one came: enable or
    /// disable, change the CPU speed, resume, step once (while stepping) or
    /// toggle a breakpoint.
    pub fn handle_events(&mut self, cpu: &mut LR35902CPU, event: Option<DebuggerCommand>)
        requires
            event matches Some(DebuggerCommand::CPU_CLOCK(s)) ==> s > 0,
        ensures
            event matches Some(DebuggerCommand::ENABLED(e)) ==> final(self).enabled == e
                && final(self).cpu_metrics == (MetricsHandler { enabled: e, ..old(self).cpu_metrics })
                && final(self).ppu_metrics == (MetricsHandler { enabled: e, ..old(self).ppu_metrics })
                && final(self).breakpoints@ == old(self).breakpoints@ && final(self).stepping == old(self).stepping
                && final(self).do_step == old(self).do_step && final(self).resume == old(self).resume,
            (event matches Some(DebuggerCommand::CPU_CLOCK(_))) || (event matches Some(DebuggerCommand::APU_MUTE_CHANNEL(_)))
                ==> *final(self) == *old(self),
            (event matches Some(DebuggerCommand::CONTINUE)) || (event matches Some(DebuggerCommand::STEP))
                || (event matches Some(DebuggerCommand::BREAKPOINT(_))) ==> final(self).enabled == old(self).enabled
                && final(self).stepping == old(self).stepping && final(self).cpu_metrics == old(self).cpu_metrics
                && final(self).ppu_metrics == old(self).ppu_metrics,
            event matches Some(DebuggerCommand::CONTINUE) ==> final(self).breakpoints@ == old(self).breakpoints@
                && final(self).do_step == old(self).do_step,
            event matches Some(DebuggerCommand::STEP) ==> final(self).breakpoints@ == old(self).breakpoints@
                && final(self).resume == old(self).resume,
            event matches Some(DebuggerCommand::BREAKPOINT(_)) ==> final(self).do_step == old(self).do_step
                && final(self).resume == old(self).resume,
            event matches Some(DebuggerCommand::CPU_CLOCK(s)) ==> *final(cpu) == (LR35902CPU {
                clock: crate::cpu::clock::Clock {
                    frame_target_nanos: crate::cpu::clock::frame_nanos(s) as u64,
                    speed_mode: crate::cpu::clock::CPUSpeed::CUSTOM,
                    ..old(cpu).clock
                },
                ..*old(cpu)
            }),
            event matches Some(DebuggerCommand::CONTINUE) ==> final(self).resume,
            event matches Some(DebuggerCommand::STEP) ==> final(self).do_step == (old(self).do_step
                || old(self).stepping),
            event matches Some(DebuggerCommand::BREAKPOINT(a)) ==> final(self).breakpoints@
                == toggled(old(self).breakpoints@, a.resolved(*old(cpu))),
            !(event matches Some(DebuggerCommand::CPU_CLOCK(_))) ==> *final(cpu) == *old(cpu),
            event is None ==> *final(self) == *old(self),
    {
        if let Some(event) = event {
            match event {
                DebuggerCommand::ENABLED(enabled) => self.set_enabled(enabled),
                DebuggerCommand::CPU_CLOCK(clock_speed) => {
                    cpu.clock.set_speed(clock_speed);
                    proof { reveal(LR35902CPU::wf); }
                },
                DebuggerCommand::CONTINUE => self.resume = true,
                DebuggerCommand::STEP => {
                    if self.stepping {
                        self.do_step = true;
                    }
                },
                DebuggerCommand::BREAKPOINT(addr) => {
                    let a = addr.resolve(cpu);
                    self.breakpoint(a);
                },
                DebuggerCommand::APU_MUTE_CHANNEL(_) => {},
            }
        }
    }

    /// Registers a CPU step in the measures: the instruction, its `cycles`
    /// M-cycles and the `nanos` nanoseconds it took, and a finished frame when
    /// `frame` (see `cpu_step_recorded` and `ppu_step_recorded`).
    pub fn record_step(&mut self, cycles: u8, nanos: u64, frame: bool)
        ensures
            final(self).cpu_metrics == cpu_step_recorded(old(self).cpu_metrics, cycles, nanos),
            final(self).ppu_metrics == ppu_step_recorded(old(self).ppu_metrics, frame),
            final(self).enabled == old(self).enabled,
            final(self).breakpoints@ == old(self).breakpoints@,
            final(self).stepping == old(self).stepping,
            final(self).do_step == old(self).do_step,
            final(self).resume == old(self).resume,
    {
        if self.cpu_metrics.metrics.instructions.count < u32::MAX {
            self.cpu_metrics.count(CpuMetricFields::INSTRUCTIONS, 1);
        }
        if self.cpu_metrics.metrics.cycles.count <= u32::MAX - cycles as u32 {
            self.cpu_metrics.count(CpuMetricFields::CYCLES, cycles as u32);
        }
        if self.cpu_metrics.metrics.tick_time.total <= u64::MAX - nanos
            && self.cpu_metrics.metrics.tick_time.len < usize::MAX {
            self.cpu_metrics.mean_time(CpuMetricFields::TICK_TIME, nanos);
        }
        if frame && self.ppu_metrics.metrics.frame_rate.count < u32::MAX {
            self.ppu_metrics.count(PpuMetricFields::FRAME_RATE, 1);
        }
    }

    /// Whether the CPU may run its next step: always when the debugger is
    /// off; after a resume request (which ends stepping); once per step
    /// request while stepping; otherwise unless PC is at a breakpoint (which
    /// starts stepping).
    pub fn cpu_should_step(&mut self, cpu: &LR35902CPU) -> (r: bool)
        ensures
            !old(self).enabled ==> r && *final(self) == *old(self),
            old(self).enabled && old(self).resume ==> r && !final(self).resume && !final(self).stepping
                && final(self).do_step == old(self).do_step,
            old(self).enabled && !old(self).resume && old(self).stepping ==> r == old(self).do_step
                && !final(self).do_step && final(self).stepping && !final(self).resume,
            old(self).enabled && !old(self).resume && !old(self).stepping ==>
                r == !old(self).breakpoints@.contains(cpu.registers.pc)
                && final(self).stepping == !r && !final(self).resume
                && final(self).do_step == old(self).do_step,
            final(self).enabled == old(self).enabled,
            final(self).breakpoints@ == old(self).breakpoints@,
    {
        if !self.enabled {
            return true;
        }
        if self.resume {
            self.resume = false;
            self.stepping = false;
            return true;
        }
        if self.stepping {
            if self.do_step {
                self.do_step = false;
                return true;
            }
            return false;
        }
        let pc = cpu.pc();
        let mut i: usize = 0;
        let n = self.breakpoints.len();
        while i < n
            invariant
                n == self.breakpoints@.len(),
                i <= n,
                *self == *old(self),
                pc == cpu.registers.pc,
                old(self).enabled && !old(self).resume && !old(self).stepping,
                forall|j: int| 0 <= j < i ==> self.breakpoints@[j] != pc,
            decreases n - i,
        {
            if self.breakpoints[i] == pc {
                assert(self.breakpoints@.contains(pc));
                self.stepping = true;
                return false;
            }
            i = i + 1;
        }
        assert(!self.breakpoints@.contains(pc));
        true
    }
}

} // verus!
