use vstd::prelude::*;
use crate::bits::{lemma_nr52};
use crate::io::audio::noise::NoiseChannel;
use crate::io::audio::pulse::PulseChannel;
use crate::io::audio::wave::WaveChannel;

verus! {

/// NR52 bit: audio on.
pub const AUDIO_ON: u8 = 0x80;
/// NR52 bits: channel 1-4 on.
pub const CH1_ON: u8 = 0x1;
pub const CH2_ON: u8 = 0x2;
pub const CH3_ON: u8 = 0x4;
pub const CH4_ON: u8 = 0x8;

/// Output samples per second.
pub const SAMPLE_RATE: u32 = 44100;
/// CPU clock cycles per second (the rate the sample clock divides).
pub const SAMPLE_CLOCK_DIVISOR: u32 = 4194304;

/// The digital levels of the four channels at one output sample; `None`
/// for a channel that is off (or silent), which mixes as 0.
#[derive(Clone, Copy, Debug, PartialEq, Eq, Structural)]
pub struct DigitalSample {
    pub ch1: Option<u8>,
    pub ch2: Option<u8>,
    pub ch3: Option<u8>,
    pub ch4: Option<u8>,
}

/// The audio processing unit: the four channels, the frame sequencer and the
/// master registers NR50-NR52. Mixing the channel levels into samples is left
/// to the caller (see `digital_sample` and `WaveChannel::output`).
pub struct APU {
    pub master_control: u8,
    pub panning: u8,
    pub master_volume: u8,
    /// Frame-sequencer step (0-7).
    pub div_apu: u8,
    pub channel1: PulseChannel,
    pub channel2: PulseChannel,
    pub channel3: WaveChannel,
    pub channel4: NoiseChannel,
    /// Clock cycles times the sample rate since the last sample, below
    /// `SAMPLE_CLOCK_DIVISOR`: a sample is due each time it passes that.
    pub sample_clock: u32,
}

/// A square channel after the frame-sequencer work of step `d`: length at even
/// steps, sweep (when `with_sweep`) at steps 2 and 6, envelope at step 7.
pub open spec fn pulse_frame_step(c: PulseChannel, d: u8, with_sweep: bool) -> PulseChannel {
    let c1 = if d % 2 == 0 { c.after_length_tick() } else { c };
    let c2 = if with_sweep && d % 4 == 2 { c1.after_freq_sweep() } else { c1 };
    if d == 7 { PulseChannel { envelope: c2.envelope.after_tick(), ..c2 } } else { c2 }
}

/// The noise channel after the frame-sequencer work of step `d`.
pub open spec fn noise_frame_step(c: NoiseChannel, d: u8) -> NoiseChannel {
    let c1 = if d % 2 == 0 { c.after_length_tick() } else { c };
    if d == 7 { NoiseChannel { envelope: c1.envelope.after_tick(), ..c1 } } else { c1 }
}

impl APU {
    pub open spec fn wf(&self) -> bool {
        &&& self.channel1.wf()
        &&& self.channel1.sweep is Some
        &&& self.channel2.wf()
        &&& self.channel3.wf()
        &&& self.channel4.wf()
        &&& self.div_apu < 8
        &&& self.sample_clock < SAMPLE_CLOCK_DIVISOR
    }

    /// The power-on state: sound off, master registers clear, the channels
    /// in their power-on states (a sweep unit on channel 1 only).
    pub open spec fn power_on(&self) -> bool {
        &&& self.master_control == 0 && self.panning == 0 && self.master_volume == 0
        &&& self.div_apu == 0 && self.sample_clock == 0
        &&& self.channel1.power_on(true)
        &&& self.channel2.power_on(false)
        &&& self.channel3.power_on()
        &&& self.channel4.power_on()
    }

    pub open spec fn is_on(&self) -> bool {
        self.master_control & AUDIO_ON == AUDIO_ON
    }

    /// The frame-sequencer step after one APU clock.
    pub open spec fn next_div_apu(&self, div_apu: bool) -> u8 {
        if div_apu { ((self.div_apu + 1) % 8) as u8 } else { self.div_apu }
    }

    pub fn new() -> (r: Self)
        ensures
            r.wf(),
            r.power_on(),
            r.master_control == 0 && r.panning == 0 && r.master_volume == 0 && r.div_apu == 0,
            r.channel1.sweep is Some,
            r.channel2.sweep is None,
            r.sample_clock == 0,
    {
        APU {
            master_control: 0,
            panning: 0,
            master_volume: 0,
            div_apu: 0,
            channel1: PulseChannel::new(true),
            channel2: PulseChannel::new(false),
            channel3: WaveChannel::new(),
            channel4: NoiseChannel::new(),
            sample_clock: 0,
        }
    }

    /// The state after audio is switched off.
    pub open spec fn after_reset(self) -> APU {
        APU {
            master_control: 0,
            panning: 0,
            master_volume: 0,
            channel1: self.channel1.after_reset(),
            channel2: self.channel2.after_reset(),
            channel3: self.channel3.after_reset(),
            channel4: self.channel4.after_reset(),
            ..self
        }
    }

    /// The state after a register write of `value` at `addr`.
    pub open spec fn after_write(self, addr: u16, value: u8) -> APU {
        if !self.is_on() && !(addr == 0xff20 || addr == 0xff26 || 0xff30 <= addr <= 0xff3f) {
            self
        } else if 0xff10 <= addr <= 0xff14 {
            APU { channel1: self.channel1.after_write(addr, value, self.div_apu), ..self }
        } else if 0xff16 <= addr <= 0xff19 {
            APU { channel2: self.channel2.after_write(addr, value, self.div_apu), ..self }
        } else if 0xff1a <= addr <= 0xff1e {
            APU { channel3: self.channel3.after_write(addr, value, self.div_apu), ..self }
        } else if 0xff20 <= addr <= 0xff23 {
            APU { channel4: self.channel4.after_write(addr, value, self.div_apu), ..self }
        } else if addr == 0xff24 {
            APU { master_volume: value, ..self }
        } else if addr == 0xff25 {
            APU { panning: value, ..self }
        } else if addr == 0xff26 {
            if !self.is_on() && value & AUDIO_ON == AUDIO_ON {
                APU { master_control: AUDIO_ON, ..self }
            } else if self.is_on() && value & AUDIO_ON != AUDIO_ON {
                self.after_reset()
            } else {
                self
            }
        } else if 0xff30 <= addr <= 0xff3f {
            APU { channel3: self.channel3.after_write(addr, value, self.div_apu), ..self }
        } else {
            self
        }
    }

    /// The state after one APU clock (`div_apu`: the frame sequencer steps).
    #[verifier::opaque]
    pub open spec fn after_tick(self, div_apu: bool) -> APU {
        let d = self.next_div_apu(div_apu);
        if !self.is_on() {
            APU { div_apu: d, ..self }
        } else {
            let c1 = if div_apu { pulse_frame_step(self.channel1, d, true) } else { self.channel1 };
            let c2 = if div_apu { pulse_frame_step(self.channel2, d, false) } else { self.channel2 };
            let c3 = if div_apu && d % 2 == 0 { self.channel3.after_length_tick() } else { self.channel3 };
            let c4 = if div_apu { noise_frame_step(self.channel4, d) } else { self.channel4 };
            APU {
                div_apu: d,
                channel1: c1.after_tick(),
                channel2: c2.after_tick(),
                channel3: c3.after_tick(),
                channel4: c4.after_tick(),
                ..self
            }
        }
    }

    fn reset(&mut self)
        requires
            old(self).wf(),
        ensures
            final(self).wf(),
            *final(self) == old(self).after_reset(),
    {
        self.master_control = 0;
        self.panning = 0;
        self.master_volume = 0;
        self.channel1.reset();
        self.channel2.reset();
        self.channel3.reset();
        self.channel4.reset();
    }

    /// Whether audio is on (NR52 bit 7).
    #[verifier::when_used_as_spec(is_on)]
    pub fn enabled(&self) -> (r: bool)
        ensures
            r == self.is_on(),
    {
        self.master_control & AUDIO_ON == AUDIO_ON
    }

    /// The byte a read at `addr` returns.
    pub open spec fn read_value(&self, addr: u16) -> u8 {
        if 0xff10 <= addr <= 0xff14 {
            self.channel1.read_value(addr)
        } else if 0xff16 <= addr <= 0xff19 {
            self.channel2.read_value(addr)
        } else if 0xff1a <= addr <= 0xff1e {
            self.channel3.read_value(addr)
        } else if 0xff20 <= addr <= 0xff23 {
            self.channel4.read_value(addr)
        } else if addr == 0xff24 {
            self.master_volume
        } else if addr == 0xff25 {
            self.panning
        } else if addr == 0xff26 {
            if self.is_on() {
                (0xf0 + (if self.channel1.enabled { 1int } else { 0 })
                    + (if self.channel2.enabled { 2int } else { 0 })
                    + (if self.channel3.enabled { 4int } else { 0 })
                    + (if self.channel4.enabled { 8int } else { 0 })) as u8
            } else {
                0x70
            }
        } else if 0xff30 <= addr <= 0xff3f {
            self.channel3.read_value(addr)
        } else {
            0xff
        }
    }

    /// Register read (NR10-NR52, wave RAM); unmapped addresses read 0xFF.
    pub fn read(&self, addr: u16) -> (r: u8)
        requires
            self.wf(),
        ensures
            r == self.read_value(addr),
    {
        if 0xff10 <= addr && addr <= 0xff14 {
            self.channel1.read(addr)
        } else if 0xff16 <= addr && addr <= 0xff19 {
            self.channel2.read(addr)
        } else if 0xff1a <= addr && addr <= 0xff1e {
            self.channel3.read(addr)
        } else if 0xff20 <= addr && addr <= 0xff23 {
            self.channel4.read(addr)
        } else if addr == 0xff24 {
            self.master_volume
        } else if addr == 0xff25 {
            self.panning
        } else if addr == 0xff26 {
            if self.enabled() {
                let b1: u8 = if self.channel1.enabled() { 1 } else { 0 };
                let b2: u8 = if self.channel2.enabled() { 1 } else { 0 };
                let b3: u8 = if self.channel3.enabled() { 1 } else { 0 };
                let b4: u8 = if self.channel4.enabled() { 1 } else { 0 };
                assert(0xf0u8 | b1 | (b2 << 1) | (b3 << 2) | (b4 << 3) == 0xf0 + b1 + 2 * b2 + 4 * b3 + 8 * b4)
                    by { lemma_nr52(b1, b2, b3, b4); }
                0xf0 | b1 | (b2 << 1) | (b3 << 2) | (b4 << 3)
            } else {
                0x70
            }
        } else if 0xff30 <= addr && addr <= 0xff3f {
            self.channel3.read(addr)
        } else {
            0xff
        }
    }

    /// Register write. While audio is off only NR41, NR52 and wave RAM accept
    /// writes. Writing NR52 switches audio on (bit 7 set) or, when it is on, off
    /// (bit 7 clear), which resets every register.
    pub fn write(&mut self, addr: u16, value: u8)
        requires
            old(self).wf(),
        ensures
            final(self).wf(),
            *final(self) == old(self).after_write(addr, value),
    {
        if !self.enabled() && !(addr == 0xff20 || addr == 0xff26 || (0xff30 <= addr && addr <= 0xff3f)) {
            return;
        }
        if 0xff10 <= addr && addr <= 0xff14 {
            self.channel1.write(addr, value, self.div_apu);
        } else if 0xff16 <= addr && addr <= 0xff19 {
            self.channel2.write(addr, value, self.div_apu);
        } else if 0xff1a <= addr && addr <= 0xff1e {
            self.channel3.write(addr, value, self.div_apu);
        } else if 0xff20 <= addr && addr <= 0xff23 {
            self.channel4.write(addr, value, self.div_apu);
        } else if addr == 0xff24 {
            self.master_volume = value;
        } else if addr == 0xff25 {
            self.panning = value;
        } else if addr == 0xff26 {
            if !self.enabled() && value & AUDIO_ON == AUDIO_ON {
                self.master_control = AUDIO_ON;
            } else if self.enabled() && value & AUDIO_ON != AUDIO_ON {
                self.reset();
            }
        } else if 0xff30 <= addr && addr <= 0xff3f {
            self.channel3.write(addr, value, self.div_apu);
        }
    }

    /// The frame-sequencer work of step `d` on the four channels.
    pub open spec fn after_frame_step(self, d: u8) -> APU {
        APU {
            channel1: pulse_frame_step(self.channel1, d, true),
            channel2: pulse_frame_step(self.channel2, d, false),
            channel3: if d % 2 == 0 { self.channel3.after_length_tick() } else { self.channel3 },
            channel4: noise_frame_step(self.channel4, d),
            ..self
        }
    }

    /// The four channels clocked once.
    pub open spec fn after_channel_ticks(self) -> APU {
        APU {
            channel1: self.channel1.after_tick(),
            channel2: self.channel2.after_tick(),
            channel3: self.channel3.after_tick(),
            channel4: self.channel4.after_tick(),
            ..self
        }
    }

    fn frame_step(&mut self)
        requires
            old(self).wf(),
        ensures
            final(self).wf(),
            *final(self) == old(self).after_frame_step(old(self).div_apu),
            old(self).channel3.tick_safe() ==> final(self).channel3.tick_safe(),
    {
        if self.div_apu % 2 == 0 {
            self.channel1.tick_length_timer();
            self.channel2.tick_length_timer();
            self.channel3.tick_length_timer();
            self.channel4.tick_length_timer();
        }
        if self.div_apu % 4 == 2 {
            self.channel1.freq_sweep();
        }
        if self.div_apu == 7 {
            self.channel1.envelope.tick();
            self.channel2.envelope.tick();
            self.channel4.envelope.tick();
        }
    }

    fn channel_ticks(&mut self)
        requires
            old(self).wf(),
            old(self).channel3.tick_safe(),
        ensures
            final(self).wf(),
            *final(self) == old(self).after_channel_ticks(),
    {
        self.channel1.tick();
        self.channel2.tick();
        self.channel3.tick();
        self.channel4.tick();
    }

    /// One APU clock. With `div_apu` the frame sequencer advances one step and,
    /// while audio is on, clocks the lengths (even steps), the channel 1 sweep
    /// (steps 2 and 6) and the envelopes (step 7). Then, while audio is on,
    /// every channel is clocked once. The result tells whether audio is on.
    pub fn tick(&mut self, div_apu: bool) -> (on: bool)
        requires
            old(self).wf(),
            old(self).is_on() ==> old(self).channel3.tick_safe(),
        ensures
            final(self).wf(),
            on == old(self).is_on(),
            *final(self) == old(self).after_tick(div_apu),
    {
        proof {
            reveal(APU::after_tick);
        }
        if div_apu {
            self.div_apu = (self.div_apu + 1) % 8;
            if !self.enabled() {
                return false;
            }
            self.frame_step();
        }
        if !self.enabled() {
            return false;
        }
        self.channel_ticks();
        true
    }
}

/// The level of a pulse channel while it sounds.
pub open spec fn pulse_level(c: PulseChannel) -> Option<u8> {
    if !c.enabled || c.period < 8 {
        None
    } else {
        Some((crate::io::audio::pulse::duty_table()[c.wave_duty as int][c.duty_idx as int] * c.envelope.volume) as u8)
    }
}

/// The level of the wave channel while it sounds.
pub open spec fn wave_level(c: WaveChannel) -> Option<u8> {
    if !c.enabled {
        None
    } else if c.volume == 0 {
        Some(0)
    } else {
        Some(crate::io::audio::wave::wave_sample(c.wave_ram@, c.wave_ram_idx as int) >> ((c.volume - 1) as u8))
    }
}

/// The level of the noise channel while it sounds.
pub open spec fn noise_level(c: NoiseChannel) -> Option<u8> {
    if !c.enabled || c.lfsr & 1 == 0 { None } else { Some(c.envelope.volume) }
}

impl APU {
    /// The channel levels now.
    pub open spec fn sample_spec(self) -> DigitalSample {
        DigitalSample {
            ch1: pulse_level(self.channel1),
            ch2: pulse_level(self.channel2),
            ch3: wave_level(self.channel3),
            ch4: noise_level(self.channel4),
        }
    }

    /// Whether the next M-cycle of sound makes a sample due.
    pub open spec fn sample_due_spec(self) -> bool {
        self.sample_clock + 4 * SAMPLE_RATE >= SAMPLE_CLOCK_DIVISOR
    }

    /// The sample clock after one M-cycle of sound.
    pub open spec fn next_sample_clock(self) -> u32 {
        let c = self.sample_clock + 4 * SAMPLE_RATE;
        (if c >= SAMPLE_CLOCK_DIVISOR { c - SAMPLE_CLOCK_DIVISOR } else { c }) as u32
    }

    /// Counts one M-cycle of sound; the result tells whether an output sample
    /// is due (every `SAMPLE_CLOCK_DIVISOR / SAMPLE_RATE` cycles on average).
    pub fn sample_due(&mut self) -> (due: bool)
        requires
            old(self).wf(),
        ensures
            final(self).wf(),
            due == old(self).sample_due_spec(),
            *final(self) == (APU { sample_clock: old(self).next_sample_clock(), ..*old(self) }),
    {
        self.sample_clock = self.sample_clock + 4 * SAMPLE_RATE;
        if self.sample_clock >= SAMPLE_CLOCK_DIVISOR {
            self.sample_clock = self.sample_clock - SAMPLE_CLOCK_DIVISOR;
            true
        } else {
            false
        }
    }

    /// The current levels of the four channels.
    pub fn digital_sample(&self) -> (r: DigitalSample)
        requires
            self.wf(),
        ensures
            r == self.sample_spec(),
    {
        let ch3 = if self.channel3.enabled() { Some(self.channel3.output()) } else { None };
        DigitalSample {
            ch1: self.channel1.digital_sample(),
            ch2: self.channel2.digital_sample(),
            ch3,
            ch4: self.channel4.digital_sample(),
        }
    }
}

/// The sample clock `n` M-cycles after it stood at `c` (see `sample_due`).
pub open spec fn sample_clock_after(c: int, n: nat) -> int
    decreases n,
{
    if n == 0 {
        c
    } else {
        let p = sample_clock_after(c, (n - 1) as nat);
        if p + 4 * SAMPLE_RATE >= SAMPLE_CLOCK_DIVISOR {
            p + 4 * SAMPLE_RATE - SAMPLE_CLOCK_DIVISOR
        } else {
            p + 4 * SAMPLE_RATE
        }
    }
}

/// The output samples due in `n` M-cycles from sample clock `c`.
pub open spec fn samples_due_in(c: int, n: nat) -> int
    decreases n,
{
    if n == 0 {
        0
    } else {
        let p = sample_clock_after(c, (n - 1) as nat);
        samples_due_in(c, (n - 1) as nat) + if p + 4 * SAMPLE_RATE >= SAMPLE_CLOCK_DIVISOR { 1int } else { 0 }
    }
}

/// One `sample_due` call is one step of `sample_clock_after` and
/// `samples_due_in`.
pub proof fn lemma_sample_due_step(a: APU)
    ensures
        a.next_sample_clock() == sample_clock_after(a.sample_clock as int, 1),
        a.sample_due_spec() == (samples_due_in(a.sample_clock as int, 1) == 1),
{
    assert(sample_clock_after(a.sample_clock as int, 0) == a.sample_clock);
    assert(samples_due_in(a.sample_clock as int, 0) == 0);
}

/// In `n` M-cycles from sample clock `c` the samples due are the times the
/// clock passes the divisor: `(c + n * 4 * SAMPLE_RATE) / SAMPLE_CLOCK_DIVISOR`,
/// and the clock ends at the remainder.
pub proof fn lemma_samples_due_count(c: int, n: nat)
    requires
        0 <= c < SAMPLE_CLOCK_DIVISOR,
    ensures
        sample_clock_after(c, n) == (c + n * (4 * SAMPLE_RATE)) % (SAMPLE_CLOCK_DIVISOR as int),
        samples_due_in(c, n) == (c + n * (4 * SAMPLE_RATE)) / (SAMPLE_CLOCK_DIVISOR as int),
    decreases n,
{
    let d = SAMPLE_CLOCK_DIVISOR as int;
    let k = 4 * SAMPLE_RATE as int;
    if n == 0 {
        vstd::arithmetic::div_mod::lemma_fundamental_div_mod_converse(c, d, 0, c);
    } else {
        lemma_samples_due_count(c, (n - 1) as nat);
        let x = c + (n - 1) * k;
        let p = sample_clock_after(c, (n - 1) as nat);
        let q = samples_due_in(c, (n - 1) as nat);
        vstd::arithmetic::div_mod::lemma_fundamental_div_mod(x, d);
        assert(x == q * d + p);
        assert(0 <= p < d);
        assert(c + n * k == x + k) by (nonlinear_arith)
            requires x == c + (n - 1) * k;
        if p + k >= d {
            vstd::arithmetic::div_mod::lemma_fundamental_div_mod_converse(x + k, d, q + 1, p + k - d);
        } else {
            vstd::arithmetic::div_mod::lemma_fundamental_div_mod_converse(x + k, d, q, p + k);
        }
    }
}

/// At normal speed the APU asks for exactly `SAMPLE_RATE` output samples per
/// emulated second (2^20 M-cycles), wherever its sample clock stands.
pub proof fn lemma_samples_per_second(c: int)
    requires
        0 <= c < SAMPLE_CLOCK_DIVISOR,
    ensures
        samples_due_in(c, 1048576) == SAMPLE_RATE,
        sample_clock_after(c, 1048576) == c,
{
    lemma_samples_due_count(c, 1048576);
    assert(c + 1048576 * (4 * SAMPLE_RATE) == c + SAMPLE_RATE * (SAMPLE_CLOCK_DIVISOR as int));
    vstd::arithmetic::div_mod::lemma_fundamental_div_mod_converse(
        c + 1048576 * (4 * SAMPLE_RATE),
        SAMPLE_CLOCK_DIVISOR as int,
        SAMPLE_RATE as int,
        c,
    );
}

} // verus!
