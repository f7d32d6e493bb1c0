use vstd::prelude::*;
use crate::bits::{lemma_u16_with_byte, lemma_u8_fields};
use crate::io::audio::envelope::Envelope;
use crate::io::audio::length_counter::LengthCounter;
use crate::io::audio::sweep::{FreqOverflow, Sweep};

verus! {

/// The four duty cycles (12.5%, 25%, 50%, 75%), eight steps each.
pub open spec fn duty_table() -> Seq<Seq<u8>> {
    seq![
        seq![0u8, 1, 0, 0, 0, 0, 0, 0],
        seq![0u8, 1, 1, 0, 0, 0, 0, 0],
        seq![0u8, 1, 1, 1, 1, 0, 0, 0],
        seq![1u8, 0, 0, 1, 1, 1, 1, 1],
    ]
}

/// The wave level (0 or 1) of duty cycle `duty` at step `idx`.
pub fn duty_signal(duty: u8, idx: u8) -> (r: u8)
    requires
        duty < 4,
        idx < 8,
    ensures
        r == duty_table()[duty as int][idx as int],
        r <= 1,
{
    let row: [u8; 8] = if duty == 0 {
        [0, 1, 0, 0, 0, 0, 0, 0]
    } else if duty == 1 {
        [0, 1, 1, 0, 0, 0, 0, 0]
    } else if duty == 2 {
        [0, 1, 1, 1, 1, 0, 0, 0]
    } else {
        [1, 0, 0, 1, 1, 1, 1, 1]
    };
    assert(row@ == duty_table()[duty as int]);
    row[idx as usize]
}

/// A square wave channel (channel 1 with its sweep, channel 2 without).
pub struct PulseChannel {
    pub enabled: bool,
    /// Period divider, counting up to 0x800.
    pub div: u16,
    pub sweep: Option<Sweep>,
    pub envelope: Envelope,
    pub length_counter: LengthCounter,
    /// Position in the duty cycle.
    pub duty_idx: u8,
    /// Duty cycle selected by NRx1.
    pub wave_duty: u8,
    /// 11-bit period from NRx3/NRx4.
    pub period: u16,
}

/// The NRx4 period: the low byte kept, bits 8-10 from the register value.
pub open spec fn period_with_high(period: u16, value: u8) -> u16 {
    ((period % 256) + (value % 8) * 256) as u16
}

/// The NRx3 period: bits 8-10 kept, the low byte from the register value.
pub open spec fn period_with_low(period: u16, value: u8) -> u16 {
    ((period / 256) % 8 * 256 + value) as u16
}

impl PulseChannel {
    /// The power-on state (with a sweep unit when `sweep`).
    pub open spec fn power_on(&self, sweep: bool) -> bool {
        &&& !self.enabled
        &&& self.div == 0 && self.duty_idx == 0 && self.wave_duty == 0 && self.period == 0
        &&& self.sweep is Some == sweep
        &&& self.sweep matches Some(s) ==> s == Sweep::default_spec()
        &&& self.envelope == Envelope::zero_spec()
        &&& self.length_counter == (LengthCounter { enabled: false, value: 0, max: 64 })
    }

    /// The registers stay within their widths and the parts are well formed.
    pub open spec fn wf(&self) -> bool {
        &&& self.envelope.wf()
        &&& self.length_counter.wf()
        &&& self.length_counter.max == 64
        &&& self.period <= 0x7ff
        &&& self.div <= 0x7ff
        &&& self.duty_idx < 8
        &&& self.wave_duty < 4
        &&& (self.sweep matches Some(s) ==> s.wf())
    }

    /// The addresses this channel answers: NR10 only with a sweep.
    pub open spec fn handles(&self, addr: u16) -> bool {
        ||| addr == 0xff10 && self.sweep is Some
        ||| addr == 0xff11 || addr == 0xff12 || addr == 0xff13 || addr == 0xff14
        ||| addr == 0xff16 || addr == 0xff17 || addr == 0xff18 || addr == 0xff19
    }

    /// The state after a power-off.
    pub open spec fn after_reset(self) -> PulseChannel {
        PulseChannel {
            enabled: false,
            div: 0,
            duty_idx: 0,
            wave_duty: 0,
            period: 0,
            envelope: Envelope::zero_spec(),
            length_counter: LengthCounter { enabled: false, value: 0, ..self.length_counter },
            sweep: match self.sweep {
                Some(_) => Some(Sweep::default_spec()),
                None => None,
            },
        }
    }

    /// The state after one period-divider step.
    pub open spec fn after_tick(self) -> PulseChannel {
        if self.div + 1 >= 0x800 {
            PulseChannel { div: self.period, duty_idx: ((self.duty_idx + 1) % 8) as u8, ..self }
        } else {
            PulseChannel { div: (self.div + 1) as u16, ..self }
        }
    }

    /// The state after one sweep step of the frame sequencer.
    pub open spec fn after_freq_sweep(self) -> PulseChannel {
        match self.sweep {
            Some(s) => if s.enabled {
                let ch = PulseChannel { sweep: Some(s.after_tick()), ..self };
                if s.tick_overflows() {
                    PulseChannel { enabled: false, ..ch }
                } else {
                    match s.tick_new_period() {
                        Some(p) => PulseChannel { period: p, ..ch },
                        None => ch,
                    }
                }
            } else {
                self
            },
            None => self,
        }
    }

    /// The state after one length step.
    pub open spec fn after_length_tick(self) -> PulseChannel {
        PulseChannel {
            length_counter: self.length_counter.after_tick(),
            enabled: self.enabled && !self.length_counter.tick_expires(),
            ..self
        }
    }

    /// The state after a trigger (NRx4 bit 7) in frame-sequencer step `div_apu`.
    pub open spec fn after_trigger(self, div_apu: u8) -> PulseChannel {
        let env = self.envelope.after_trigger();
        let lc1 = self.length_counter.after_trigger();
        let extra = self.length_counter.value == 0 && div_apu % 2 == 0;
        let lc2 = if extra { lc1.after_tick() } else { lc1 };
        let expired = extra && lc1.tick_expires();
        let on = env.dac_on() && !expired;
        let ch = PulseChannel {
            envelope: env,
            length_counter: lc2,
            div: self.period,
            duty_idx: 0,
            enabled: on,
            ..self
        };
        match self.sweep {
            Some(s) => PulseChannel {
                sweep: Some(s.after_trigger(self.period)),
                enabled: on && !s.trigger_overflows(self.period),
                ..ch
            },
            None => ch,
        }
    }

    /// The state after a write of `value` at `addr` in frame-sequencer step `div_apu`.
    pub open spec fn after_write(self, addr: u16, value: u8, div_apu: u8) -> PulseChannel {
        if addr == 0xff10 {
            PulseChannel { sweep: Some(self.sweep.unwrap().after_set(value)), ..self }
        } else if addr == 0xff11 || addr == 0xff16 {
            PulseChannel {
                length_counter: LengthCounter {
                    value: (64 - value % 64) as u16,
                    ..self.length_counter
                },
                wave_duty: value / 64,
                ..self
            }
        } else if addr == 0xff12 || addr == 0xff17 {
            let env = self.envelope.after_set(value);
            PulseChannel {
                envelope: env,
                enabled: self.enabled && !(self.envelope.dac_on() && !env.dac_on()),
                ..self
            }
        } else if addr == 0xff13 || addr == 0xff18 {
            PulseChannel { period: period_with_low(self.period, value), ..self }
        } else {
            let lc_on = value & 0x40 == 0x40;
            let lc = LengthCounter { enabled: lc_on, ..self.length_counter };
            let extra = !self.length_counter.enabled && lc_on && div_apu % 2 == 0 && lc.value > 0;
            let ch = PulseChannel {
                length_counter: if extra { lc.after_tick() } else { lc },
                enabled: self.enabled && !(extra && lc.tick_expires()),
                period: period_with_high(self.period, value),
                ..self
            };
            if value >= 128 { ch.after_trigger(div_apu) } else { ch }
        }
    }

    /// The byte a read at `addr` returns.
    pub open spec fn read_value(self, addr: u16) -> u8 {
        if addr == 0xff10 {
            (self.sweep.unwrap().register_value() + 0x80) as u8
        } else if addr == 0xff11 || addr == 0xff16 {
            (self.wave_duty * 64 + 0x3f) as u8
        } else if addr == 0xff12 || addr == 0xff17 {
            self.envelope.register_value() as u8
        } else if addr == 0xff13 || addr == 0xff18 {
            0xff
        } else {
            if self.length_counter.enabled { 0xffu8 } else { 0xbfu8 }
        }
    }

    pub fn new(sweep: bool) -> (r: Self)
        ensures
            r.power_on(sweep),
            r.wf(),
            !r.enabled,
            r.div == 0 && r.duty_idx == 0 && r.wave_duty == 0 && r.period == 0,
            r.sweep is Some == sweep,
            r.sweep matches Some(s) ==> s == Sweep::default_spec(),
            r.envelope == Envelope::zero_spec(),
            r.length_counter == (LengthCounter { enabled: false, value: 0, max: 64 }),
    {
        let sweep = if sweep { Some(Sweep::default()) } else { None };
        PulseChannel {
            enabled: false,
            div: 0,
            sweep,
            envelope: Envelope::default(),
            length_counter: LengthCounter::new(64),
            duty_idx: 0,
            wave_duty: 0,
            period: 0,
        }
    }

    /// Advances the period divider; on overflow it reloads from the period and
    /// the duty position moves on.
    pub fn tick(&mut self)
        requires
            old(self).wf(),
        ensures
            final(self).wf(),
            *final(self) == old(self).after_tick(),
    {
        self.div = self.div + 1;
        if self.div >= 0x800 {
            self.div = self.period;
            self.duty_idx = (self.duty_idx + 1) % 8;
        }
    }

    /// Sweep step: with an enabled sweep, a new period replaces the channel
    /// period and an overflow silences the channel.
    pub fn freq_sweep(&mut self)
        requires
            old(self).wf(),
        ensures
            final(self).wf(),
            *final(self) == old(self).after_freq_sweep(),
    {
        match self.sweep {
            Some(s) => {
                if s.enabled() {
                    let mut s2 = s;
                    let r = s2.tick();
                    self.sweep = Some(s2);
                    match r {
                        Ok(None) => {},
                        Ok(Some(p)) => self.period = p,
                        Err(FreqOverflow) => self.enabled = false,
                    }
                }
            },
            None => {},
        }
    }

    /// Length step: the channel is silenced when its length runs out.
    pub fn tick_length_timer(&mut self)
        requires
            old(self).wf(),
        ensures
            final(self).wf(),
            *final(self) == old(self).after_length_tick(),
    {
        if self.length_counter.tick() {
            self.enabled = false;
        }
    }

    /// Power-off: every register cleared, the sweep (if any) back to its default.
    pub fn reset(&mut self)
        requires
            old(self).wf(),
        ensures
            final(self).wf(),
            *final(self) == old(self).after_reset(),
            !final(self).enabled,
            final(self).div == 0 && final(self).duty_idx == 0,
            final(self).wave_duty == 0 && final(self).period == 0,
            final(self).envelope == Envelope::zero_spec(),
            final(self).length_counter == (LengthCounter { enabled: false, value: 0, max: 64 }),
            final(self).sweep is Some == old(self).sweep is Some,
            final(self).sweep matches Some(s) ==> s == Sweep::default_spec(),
    {
        self.enabled = false;
        self.div = 0;
        self.duty_idx = 0;
        self.wave_duty = 0;
        self.period = 0;
        self.envelope = Envelope::default();
        self.length_counter.reset();
        if self.sweep.is_some() {
            self.sweep = Some(Sweep::default());
        }
    }

    /// The digital level of the channel (duty level times volume), or `None`
    /// while the channel is off or its period is below 8.
    pub fn digital_sample(&self) -> (r: Option<u8>)
        requires
            self.wf(),
        ensures
            (!self.enabled || self.period < 8) ==> r is None,
            (self.enabled && self.period >= 8) ==> r == Some(
                (duty_table()[self.wave_duty as int][self.duty_idx as int] * self.envelope.volume) as u8,
            ),
    {
        if !self.enabled || self.period < 8 {
            return None;
        }
        let signal = duty_signal(self.wave_duty, self.duty_idx);
        let volume = self.envelope.volume();
        Some(signal * volume)
    }

    fn trigger(&mut self, div_apu: u8)
        requires
            old(self).wf(),
        ensures
            final(self).wf(),
            *final(self) == old(self).after_trigger(div_apu),
    {
        self.envelope.trigger();
        self.enabled = self.envelope.dac_enabled();

        if self.length_counter.trigger() && div_apu % 2 == 0 && self.length_counter.tick() {
            self.enabled = false;
        }

        self.div = self.period;
        self.duty_idx = 0;

        match self.sweep {
            Some(s) => {
                let mut s2 = s;
                let r = s2.trigger(self.period);
                self.sweep = Some(s2);
                if r.is_err() {
                    self.enabled = false;
                }
            },
            None => {},
        }
    }

    pub fn enabled(&self) -> (r: bool)
        ensures
            r == self.enabled,
    {
        self.enabled
    }

    /// Register write (NR10-NR14 or NR21-NR24).
    pub fn write(&mut self, addr: u16, value: u8, div_apu: u8)
        requires
            old(self).wf(),
            old(self).handles(addr),
        ensures
            final(self).wf(),
            *final(self) == old(self).after_write(addr, value, div_apu),
    {
        if addr == 0xff10 {
            let mut s = self.sweep.unwrap();
            s.set(value);
            self.sweep = Some(s);
        } else if addr == 0xff11 || addr == 0xff16 {
            assert(value & 0x3f <= 63) by { lemma_u8_fields(value); }
            self.length_counter.set(value & 0x3f);
            self.wave_duty = (value >> 6) & 0x3;
            assert(value & 0x3f == value % 64) by { lemma_u8_fields(value); }
            assert((value >> 6) & 0x3 == value / 64) by { lemma_u8_fields(value); }
        } else if addr == 0xff12 || addr == 0xff17 {
            let prev_dac_enabled = self.envelope.dac_enabled();
            self.envelope.set(value);
            if prev_dac_enabled && !self.envelope.dac_enabled() {
                self.enabled = false;
            }
        } else if addr == 0xff13 || addr == 0xff18 {
            let p = self.period;
            assert((p & 0x700) | (value as u16) == (p / 256) % 8 * 256 + value) by { lemma_u16_with_byte(p, value); }
            self.period = (self.period & 0x700) | value as u16;
        } else {
            let lc_enabled = self.length_counter.enabled();

            self.length_counter.set_enabled(value & 0x40 == 0x40);
            if !lc_enabled && self.length_counter.enabled() && div_apu % 2 == 0
                && self.length_counter.value > 0 && self.length_counter.tick() {
                self.enabled = false;
            }
            let p = self.period;
            assert((p & 0xff) | (((value as u16) & 0x7) << 8) == (p % 256) + (value % 8) * 256)
                by { lemma_u16_with_byte(p, value); }
            self.period = (self.period & 0xff) | ((value as u16 & 0x7) << 8);
            assert(((value >> 7) & 1 == 1) == (value >= 128)) by { lemma_u8_fields(value); }
            if (value >> 7) & 1 == 1 {
                self.trigger(div_apu);
            }
        }
    }

    /// Register read (NR10-NR14 or NR21-NR24); write-only registers read 0xFF.
    pub fn read(&self, addr: u16) -> (r: u8)
        requires
            self.wf(),
            self.handles(addr),
        ensures
            r == self.read_value(addr),
    {
        if addr == 0xff10 {
            let g = self.sweep.as_ref().unwrap().get();
            assert(g | 0x80 == g + 0x80) by { lemma_u8_fields(g); }
            g | 0x80
        } else if addr == 0xff11 || addr == 0xff16 {
            let d = self.wave_duty;
            assert((d << 6) | 0x3f == d * 64 + 0x3f) by { lemma_u8_fields(d); }
            (self.wave_duty << 6) | 0x3f
        } else if addr == 0xff12 || addr == 0xff17 {
            self.envelope.get()
        } else if addr == 0xff13 || addr == 0xff18 {
            0xff
        } else {
            if self.length_counter.enabled() { 0xff } else { 0xbf }
        }
    }
}

} // verus!
