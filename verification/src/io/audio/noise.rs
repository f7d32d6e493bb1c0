use vstd::prelude::*;
use crate::bits::{lemma_pack_fields, lemma_u8_fields};
use crate::io::audio::envelope::Envelope;
use crate::io::audio::length_counter::LengthCounter;

verus! {

/// The noise channel (channel 4): a linear-feedback shift register clocked by a
/// programmable divider.
pub struct NoiseChannel {
    pub enabled: bool,
    pub length_counter: LengthCounter,
    /// Clock divider code (3 bits).
    pub clock_div: u8,
    /// Short (7-bit) LFSR mode.
    pub lfsr_width: bool,
    /// Clock shift (4 bits).
    pub clock_shift: u8,
    pub lfsr: u16,
    /// Cycles left before the next LFSR step.
    pub div: u16,
    pub envelope: Envelope,
}

/// The divider period for a divider code and shift: 8 for code 0, else 16 times
/// the code, shifted left (within 16 bits).
pub open spec fn noise_period(clock_div: u8, clock_shift: u8) -> u16 {
    let divisor: u16 = if clock_div == 0 { 8 } else { (clock_div * 16) as u16 };
    divisor << clock_shift
}

/// One LFSR step: the feedback (bit 0 xor the value of bit 1 in place) enters at
/// bit 14 and, in short mode, also replaces bit 6.
pub open spec fn lfsr_step(lfsr: u16, short_mode: bool) -> u16 {
    let fb: u16 = (lfsr & 0x1) ^ (lfsr & 0x2);
    let l: u16 = (lfsr >> 1) | (fb << 14);
    if short_mode { (l & !(1u16 << 6)) | (fb << 6) } else { l }
}

impl NoiseChannel {
    /// The power-on state.
    pub open spec fn power_on(&self) -> bool {
        &&& !self.enabled
        &&& self.lfsr == 0x7fff
        &&& self.div == 0 && self.clock_div == 0 && self.clock_shift == 0 && !self.lfsr_width
        &&& self.envelope == Envelope::zero_spec()
        &&& self.length_counter == (LengthCounter { enabled: false, value: 0, max: 64 })
    }

    pub open spec fn wf(&self) -> bool {
        &&& self.envelope.wf()
        &&& self.length_counter.wf()
        &&& self.length_counter.max == 64
        &&& self.clock_div <= 7
        &&& self.clock_shift <= 15
    }

    pub open spec fn handles(addr: u16) -> bool {
        0xff20 <= addr <= 0xff23
    }

    pub open spec fn period_spec(self) -> u16 {
        noise_period(self.clock_div, self.clock_shift)
    }

    /// The state after a power-off.
    pub open spec fn after_reset(self) -> NoiseChannel {
        NoiseChannel {
            enabled: false,
            clock_div: 0,
            lfsr_width: false,
            clock_shift: 0,
            lfsr: 0,
            div: 0,
            envelope: Envelope::zero_spec(),
            length_counter: LengthCounter { enabled: false, value: 0, ..self.length_counter },
        }
    }

    /// The state after one clock of the channel.
    pub open spec fn after_tick(self) -> NoiseChannel {
        if !self.enabled {
            self
        } else if self.div > 0 {
            NoiseChannel { div: (self.div - 1) as u16, ..self }
        } else {
            NoiseChannel {
                div: self.period_spec(),
                lfsr: lfsr_step(self.lfsr, self.lfsr_width),
                ..self
            }
        }
    }

    /// The state after one length step.
    pub open spec fn after_length_tick(self) -> NoiseChannel {
        NoiseChannel {
            length_counter: self.length_counter.after_tick(),
            enabled: self.enabled && !self.length_counter.tick_expires(),
            ..self
        }
    }

    /// The state after a trigger in frame-sequencer step `div_apu`.
    pub open spec fn after_trigger(self, div_apu: u8) -> NoiseChannel {
        let env = self.envelope.after_trigger();
        let lc1 = self.length_counter.after_trigger();
        let extra = self.length_counter.value == 0 && div_apu % 2 == 0;
        let lc2 = if extra { lc1.after_tick() } else { lc1 };
        let expired = extra && lc1.tick_expires();
        NoiseChannel {
            envelope: env,
            enabled: env.dac_on() && !expired,
            lfsr: 0x7fff,
            length_counter: lc2,
            div: self.period_spec(),
            ..self
        }
    }

    /// The state after a write of `value` at `addr`.
    pub open spec fn after_write(self, addr: u16, value: u8, div_apu: u8) -> NoiseChannel {
        if addr == 0xff20 {
            NoiseChannel {
                length_counter: LengthCounter {
                    value: (64 - value % 64) as u16,
                    ..self.length_counter
                },
                ..self
            }
        } else if addr == 0xff21 {
            let env = self.envelope.after_set(value);
            NoiseChannel {
                envelope: env,
                enabled: self.enabled && !(self.envelope.dac_on() && !env.dac_on()),
                ..self
            }
        } else if addr == 0xff22 {
            NoiseChannel {
                clock_div: value % 8,
                lfsr_width: (value / 8) % 2 == 1,
                clock_shift: value / 16,
                ..self
            }
        } else {
            let lc_on = value & 0x40 == 0x40;
            let lc = LengthCounter { enabled: lc_on, ..self.length_counter };
            let extra = !self.length_counter.enabled && lc_on && div_apu % 2 == 0 && lc.value > 0;
            let ch = NoiseChannel {
                length_counter: if extra { lc.after_tick() } else { lc },
                enabled: self.enabled && !(extra && lc.tick_expires()),
                ..self
            };
            if value >= 128 { ch.after_trigger(div_apu) } else { ch }
        }
    }

    /// The byte a read at `addr` returns.
    pub open spec fn read_value(self, addr: u16) -> u8 {
        if addr == 0xff20 {
            0xff
        } else if addr == 0xff21 {
            self.envelope.register_value() as u8
        } else if addr == 0xff22 {
            (self.clock_div + (if self.lfsr_width { 8int } else { 0 }) + self.clock_shift * 16) as u8
        } else {
            if self.length_counter.enabled { 0xffu8 } else { 0xbfu8 }
        }
    }

    pub fn new() -> (r: Self)
        ensures
            r.power_on(),
            r.wf(),
            !r.enabled,
            r.lfsr == 0x7fff,
            r.div == 0 && r.clock_div == 0 && r.clock_shift == 0 && !r.lfsr_width,
            r.envelope == Envelope::zero_spec(),
            r.length_counter == (LengthCounter { enabled: false, value: 0, max: 64 }),
    {
        NoiseChannel {
            enabled: false,
            length_counter: LengthCounter::new(64),
            clock_div: 0,
            lfsr_width: false,
            clock_shift: 0,
            lfsr: 0x7fff,
            div: 0,
            envelope: Envelope::default(),
        }
    }

    /// Length step: the channel is silenced when its length runs out.
    pub fn tick_length_timer(&mut self)
        requires
            old(self).wf(),
        ensures
            final(self).wf(),
            *final(self) == old(self).after_length_tick(),
    {
        if self.length_counter.tick() {
            self.enabled = false;
        }
    }

    /// Power-off: every register cleared, the LFSR included.
    pub fn reset(&mut self)
        requires
            old(self).wf(),
        ensures
            final(self).wf(),
            *final(self) == old(self).after_reset(),
            !final(self).enabled,
            final(self).clock_div == 0 && !final(self).lfsr_width && final(self).clock_shift == 0,
            final(self).lfsr == 0 && final(self).div == 0,
            final(self).envelope == Envelope::zero_spec(),
            final(self).length_counter == (LengthCounter { enabled: false, value: 0, max: 64 }),
    {
        self.enabled = false;
        self.clock_div = 0;
        self.lfsr_width = false;
        self.clock_shift = 0;
        self.lfsr = 0;
        self.div = 0;
        self.envelope = Envelope::default();
        self.length_counter.reset();
    }

    /// One clock: an enabled channel counts its divider down and, when it is
    /// already 0, reloads it and steps the LFSR.
    pub fn tick(&mut self)
        requires
            old(self).wf(),
        ensures
            final(self).wf(),
            *final(self) == old(self).after_tick(),
    {
        if !self.enabled {
            return;
        }
        if self.div > 0 {
            self.div = self.div - 1;
        } else {
            self.div = self.period();
            let fb = (self.lfsr & 0x1) ^ (self.lfsr & 0x2);
            let l = self.lfsr;
            assert(fb << 14u16 == ((l & 0x1) ^ (l & 0x2)) << 14u16);
            self.lfsr = (self.lfsr >> 1) | (fb << 14);
            if self.lfsr_width {
                self.lfsr = (self.lfsr & !(1 << 6)) | (fb << 6);
            }
        }
    }

    /// The digital level: the volume while the channel is on and LFSR bit 0 is
    /// set, else `None` (silence).
    pub fn digital_sample(&self) -> (r: Option<u8>)
        ensures
            (!self.enabled || self.lfsr & 1 == 0) ==> r is None,
            (self.enabled && self.lfsr & 1 != 0) ==> r == Some(self.envelope.volume),
    {
        if !self.enabled || self.lfsr & 0x1 == 0 {
            return None;
        }
        Some(self.envelope.volume())
    }

    pub fn enabled(&self) -> (r: bool)
        ensures
            r == self.enabled,
    {
        self.enabled
    }

    fn trigger(&mut self, div_apu: u8)
        requires
            old(self).wf(),
        ensures
            final(self).wf(),
            *final(self) == old(self).after_trigger(div_apu),
    {
        self.envelope.trigger();
        self.enabled = self.envelope.dac_enabled();
        self.lfsr = 0x7fff;
        if self.length_counter.trigger() && div_apu % 2 == 0 && self.length_counter.tick() {
            self.enabled = false;
        }
        self.div = self.period();
    }

    /// The divider period of the current configuration.
    fn period(&self) -> (r: u16)
        requires
            self.wf(),
        ensures
            r == self.period_spec(),
    {
        let divisor: u16 = if self.clock_div == 0 { 8 } else { self.clock_div as u16 * 16 };
        divisor << self.clock_shift
    }

    /// Register write (NR41-NR44).
    pub fn write(&mut self, addr: u16, value: u8, div_apu: u8)
        requires
            old(self).wf(),
            Self::handles(addr),
        ensures
            final(self).wf(),
            *final(self) == old(self).after_write(addr, value, div_apu),
    {
        if addr == 0xff20 {
            assert(value & 0x3f <= 63) by { lemma_u8_fields(value); }
            assert(value & 0x3f == value % 64) by { lemma_u8_fields(value); }
            self.length_counter.set(value & 0x3f);
        } else if addr == 0xff21 {
            let prev_dac_enabled = self.envelope.dac_enabled();
            self.envelope.set(value);
            if prev_dac_enabled && !self.envelope.dac_enabled() {
                self.enabled = false;
            }
        } else if addr == 0xff22 {
            assert(value & 0x7 == value % 8) by { lemma_u8_fields(value); }
            assert(((value >> 3) & 0x1 == 1) == ((value / 8) % 2 == 1)) by { lemma_u8_fields(value); }
            assert((value >> 4) & 0xf == value / 16) by { lemma_u8_fields(value); }
            self.clock_div = value & 0x7;
            self.lfsr_width = (value >> 3) & 0x1 == 1;
            self.clock_shift = (value >> 4) & 0xf;
        } else {
            let lc_enabled = self.length_counter.enabled();
            self.length_counter.set_enabled(value & 0x40 == 0x40);
            if !lc_enabled && self.length_counter.enabled() && div_apu % 2 == 0
                && self.length_counter.value > 0 && self.length_counter.tick() {
                self.enabled = false;
            }
            assert(((value >> 7) & 0x1 == 1) == (value >= 128)) by { lemma_u8_fields(value); }
            if (value >> 7) & 0x1 == 1 {
                self.trigger(div_apu);
            }
        }
    }

    /// Register read (NR41-NR44); NR41 is write-only and reads 0xFF.
    pub fn read(&self, addr: u16) -> (r: u8)
        requires
            self.wf(),
            Self::handles(addr),
        ensures
            r == self.read_value(addr),
    {
        if addr == 0xff20 {
            0xff
        } else if addr == 0xff21 {
            self.envelope.get()
        } else if addr == 0xff22 {
            let d = self.clock_div;
            let w: u8 = if self.lfsr_width { 1 } else { 0 };
            let s = self.clock_shift;
            assert(d | (w << 3) | (s << 4) == d + w * 8 + s * 16) by { lemma_pack_fields(s, w, d); }
            self.clock_div | ((self.lfsr_width as u8) << 3) | (self.clock_shift << 4)
        } else {
            if self.length_counter.enabled() { 0xff } else { 0xbf }
        }
    }
}

} // verus!
