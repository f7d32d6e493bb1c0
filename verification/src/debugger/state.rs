use vstd::prelude::*;
use crate::cpu::cpu::LR35902CPU;
use crate::cpu::registers::CPURegisters;
use crate::debugger::disas::{disas, disas_addr, disas_ok, disas_text, GbAsm};
use crate::debugger::metrics::{CpuMetrics, MetricsExport, PpuMetrics};
use crate::io::audio::apu::APU;
use crate::io::audio::noise::NoiseChannel;
use crate::io::audio::pulse::PulseChannel;
use crate::io::audio::wave::WaveChannel;
use crate::io::video::ppu::PPU;

verus! {

/// The number of instructions a CPU snapshot disassembles.
pub const DISAS_LEN: usize = 30;

/// IME, IE and IF.
#[derive(Clone, Copy, Debug, Default, PartialEq, Eq, Structural)]
pub struct InterruptState {
    pub int_master: bool,
    pub int_enable: u8,
    pub interrupts: u8,
}

/// What the debugger shows of the CPU.
pub struct CpuState {
    pub registers: CPURegisters,
    pub halt: bool,
    pub interrupts: InterruptState,
    pub metrics: MetricsExport<CpuMetrics>,
    pub disas: Vec<GbAsm>,
}

impl CpuState {
    /// The snapshot of `cpu`, with the CPU measures `metrics` and the next
    /// `DISAS_LEN` instructions disassembled.
    pub fn new(cpu: &LR35902CPU, metrics: MetricsExport<CpuMetrics>) -> (r: Self)
        requires
            cpu.wf(),
            disas_ok(*cpu, cpu.registers.pc, DISAS_LEN as nat),
        ensures
            r.registers == cpu.registers,
            r.halt == cpu.halt,
            r.interrupts == (InterruptState {
                int_master: cpu.int_master,
                int_enable: cpu.bus.interrupts.enable,
                interrupts: cpu.bus.interrupts.flags,
            }),
            r.metrics == metrics,
            r.disas@.len() == DISAS_LEN,
            forall|k: int| 0 <= k < DISAS_LEN ==> {
                let a = #[trigger] disas_addr(*cpu, cpu.registers.pc, k as nat);
                &&& r.disas@[k].addr == a
                &&& r.disas@[k].text@ == disas_text(*cpu, a)
            },
    {
        CpuState {
            registers: cpu.registers,
            halt: cpu.halt,
            interrupts: InterruptState {
                int_master: cpu.int_master,
                int_enable: cpu.bus.interrupts.enable,
                interrupts: cpu.bus.interrupts.flags,
            },
            metrics,
            disas: disas(cpu, DISAS_LEN),
        }
    }
}

/// What the debugger shows of one sound channel.
#[derive(Clone, Copy, Debug, Default, PartialEq, Eq, Structural)]
pub struct ChannelState {
    pub enabled: bool,
    pub muted: bool,
    pub volume: u8,
    /// Tone frequency in Hz (0 for the noise channel).
    pub freq: u32,
}

/// The frequency of a square channel with period `p`.
pub open spec fn pulse_freq(p: u16) -> u32 {
    (131072int / (2048 - p)) as u32
}

/// The frequency of the wave channel with period `p`.
pub open spec fn wave_freq(p: u16) -> u32 {
    (65536int / (2048 - p)) as u32
}

/// The volume shown for wave output level `level`.
pub open spec fn wave_volume(level: u8) -> u8 {
    if level == 0 { 0 } else if level == 1 { 15 } else if level == 2 { 11 } else { 4 }
}

/// What the debugger shows of the APU.
#[derive(Clone, Copy, Debug, Default, PartialEq, Eq, Structural)]
pub struct ApuState {
    pub channel1: ChannelState,
    pub channel2: ChannelState,
    pub channel3: ChannelState,
    pub channel4: ChannelState,
}

fn pulse_state(c: &PulseChannel) -> (r: ChannelState)
    requires
        c.wf(),
    ensures
        r == (ChannelState { enabled: c.enabled, muted: false, volume: c.envelope.volume, freq: pulse_freq(c.period) }),
{
    ChannelState {
        enabled: c.enabled(),
        muted: false,
        volume: c.envelope.volume(),
        freq: 131072u32 / (2048u32 - c.period as u32),
    }
}

impl ApuState {
    /// The snapshot of `apu`.
    pub fn new(apu: &APU) -> (r: Self)
        requires
            apu.wf(),
            apu.channel3.period < 2048,
        ensures
            r.channel1 == (ChannelState {
                enabled: apu.channel1.enabled,
                muted: false,
                volume: apu.channel1.envelope.volume,
                freq: pulse_freq(apu.channel1.period),
            }),
            r.channel2 == (ChannelState {
                enabled: apu.channel2.enabled,
                muted: false,
                volume: apu.channel2.envelope.volume,
                freq: pulse_freq(apu.channel2.period),
            }),
            r.channel3 == (ChannelState {
                enabled: apu.channel3.enabled,
                muted: false,
                volume: wave_volume(apu.channel3.volume),
                freq: wave_freq(apu.channel3.period),
            }),
            r.channel4 == (ChannelState {
                enabled: apu.channel4.enabled,
                muted: false,
                volume: apu.channel4.envelope.volume,
                freq: 0,
            }),
    {
        let ch3_vol: u8 = match apu.channel3.volume {
            0 => 0,
            1 => 15,
            2 => 11,
            _ => 4,
        };
        ApuState {
            channel1: pulse_state(&apu.channel1),
            channel2: pulse_state(&apu.channel2),
            channel3: ChannelState {
                enabled: apu.channel3.enabled(),
                muted: false,
                volume: ch3_vol,
                freq: 65536u32 / (2048u32 - apu.channel3.period as u32),
            },
            channel4: ChannelState {
                enabled: apu.channel4.enabled(),
                muted: false,
                volume: apu.channel4.envelope.volume(),
                freq: 0,
            },
        }
    }
}

/// What the debugger shows of the PPU: the current VRAM bank and the PPU
/// measures.
pub struct PpuState {
    pub vram: [u8; 0x2000],
    pub metrics: MetricsExport<PpuMetrics>,
}

impl PpuState {
    /// The snapshot of `ppu`'s current VRAM bank, with the PPU measures `metrics`.
    pub fn new(ppu: &PPU, metrics: MetricsExport<PpuMetrics>) -> (r: Self)
        requires
            ppu.wf(),
        ensures
            r.vram@ == ppu.vram@.subrange(ppu.vram_bank * 0x2000, ppu.vram_bank * 0x2000 + 0x2000),
            r.metrics == metrics,
    {
        let mut vram = [0u8; 0x2000];
        let base = ppu.vram_bank as usize * 0x2000;
        let mut i: usize = 0;
        while i < 0x2000
            invariant
                ppu.wf(),
                base == ppu.vram_bank * 0x2000,
                i <= 0x2000,
                forall|j: int| 0 <= j < i ==> vram@[j] == ppu.vram@[base + j],
            decreases 0x2000 - i,
        {
            vram[i] = ppu.vram[base + i];
            i = i + 1;
        }
        assert(vram@ =~= ppu.vram@.subrange(base as int, base + 0x2000));
        PpuState { vram, metrics }
    }
}

} // verus!
