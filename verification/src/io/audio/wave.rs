use vstd::prelude::*;
use crate::bits::{lemma_u16_with_byte, lemma_u8_fields};
use crate::io::audio::length_counter::LengthCounter;

verus! {

/// The wave channel (channel 3): plays 32 four-bit samples from wave RAM.
pub struct WaveChannel {
    pub enabled: bool,
    pub dac_enabled: bool,
    pub length_counter: LengthCounter,
    /// Cycles left before the next sample.
    pub div: u16,
    /// Output level code (2 bits): mute, 100%, 50%, 25%.
    pub volume: u8,
    pub period: u16,
    /// Position (0-31) of the current sample in wave RAM.
    pub wave_ram_idx: usize,
    /// 16 bytes holding 32 samples, high nibble first.
    pub wave_ram: [u8; 0x10],
}

/// The sample at position `idx` of wave RAM `ram`: high nibble for an even
/// position, low nibble for an odd one.
pub open spec fn wave_sample(ram: Seq<u8>, idx: int) -> u8 {
    if idx % 2 == 0 { ram[idx / 2] / 16 } else { ram[idx / 2] % 16 }
}

impl WaveChannel {
    /// The power-on state.
    pub open spec fn power_on(&self) -> bool {
        &&& !self.enabled && !self.dac_enabled
        &&& self.div == 0 && self.volume == 0 && self.period == 0
        &&& self.wave_ram_idx == 1
        &&& forall|i: int| 0 <= i < 16 ==> self.wave_ram@[i] == 0
        &&& self.length_counter == (LengthCounter { enabled: false, value: 0, max: 256 })
    }

    pub open spec fn wf(&self) -> bool {
        &&& self.length_counter.wf()
        &&& self.length_counter.max == 256
        &&& self.volume <= 3
        &&& self.wave_ram_idx < 32
    }

    pub open spec fn handles(addr: u16) -> bool {
        0xff1a <= addr <= 0xff1e || 0xff30 <= addr <= 0xff3f
    }

    /// A clock of the channel never counts the divider below zero.
    pub open spec fn tick_safe(&self) -> bool {
        self.enabled && self.dac_enabled ==> self.div > 0
    }

    /// The state after a power-off (wave RAM is kept).
    pub open spec fn after_reset(self) -> WaveChannel {
        WaveChannel {
            enabled: false,
            dac_enabled: false,
            div: 0,
            volume: 0,
            period: 0,
            length_counter: LengthCounter { enabled: false, value: 0, ..self.length_counter },
            wave_ram_idx: 1,
            ..self
        }
    }

    /// The state after one clock.
    pub open spec fn after_tick(self) -> WaveChannel {
        if !(self.enabled && self.dac_enabled) {
            self
        } else if self.div == 1 {
            WaveChannel { div: self.period, wave_ram_idx: ((self.wave_ram_idx + 1) % 32) as usize, ..self }
        } else {
            WaveChannel { div: (self.div - 1) as u16, ..self }
        }
    }

    /// The state after one length step.
    pub open spec fn after_length_tick(self) -> WaveChannel {
        WaveChannel {
            length_counter: self.length_counter.after_tick(),
            enabled: self.enabled && !self.length_counter.tick_expires(),
            ..self
        }
    }

    /// The state after a trigger in frame-sequencer step `div_apu`.
    pub open spec fn after_trigger(self, div_apu: u8) -> WaveChannel {
        let lc1 = self.length_counter.after_trigger();
        let extra = self.length_counter.value == 0 && div_apu % 2 == 0;
        WaveChannel {
            enabled: self.dac_enabled && !(extra && lc1.tick_expires()),
            length_counter: if extra { lc1.after_tick() } else { lc1 },
            div: self.period,
            wave_ram_idx: 1,
            ..self
        }
    }

    /// The state after a write of `value` at `addr`.
    pub open spec fn after_write(self, addr: u16, value: u8, div_apu: u8) -> WaveChannel {
        if addr == 0xff1a {
            WaveChannel {
                dac_enabled: value >= 128,
                enabled: self.enabled && !(self.dac_enabled && value < 128),
                ..self
            }
        } else if addr == 0xff1b {
            WaveChannel {
                length_counter: LengthCounter { value: (256 - value) as u16, ..self.length_counter },
                ..self
            }
        } else if addr == 0xff1c {
            WaveChannel { volume: (value / 32) % 4, ..self }
        } else if addr == 0xff1d {
            WaveChannel { period: ((self.period / 256) % 8 * 256 + value) as u16, ..self }
        } else if addr == 0xff1e {
            let lc_on = value & 0x40 == 0x40;
            let lc = LengthCounter { enabled: lc_on, ..self.length_counter };
            let extra = !self.length_counter.enabled && lc_on && div_apu % 2 == 0 && lc.value > 0;
            let ch = WaveChannel {
                length_counter: if extra { lc.after_tick() } else { lc },
                enabled: self.enabled && !(extra && lc.tick_expires()),
                period: ((self.period % 256) + value * 256) as u16,
                ..self
            };
            if value >= 128 { ch.after_trigger(div_apu) } else { ch }
        } else {
            WaveChannel {
                wave_ram: vstd::array::spec_array_update(self.wave_ram, addr - 0xff30, value),
                ..self
            }
        }
    }

    /// The byte a read at `addr` returns.
    pub open spec fn read_value(self, addr: u16) -> u8 {
        if addr == 0xff1a {
            if self.dac_enabled { 0xffu8 } else { 0x7fu8 }
        } else if addr == 0xff1b || addr == 0xff1d {
            0xff
        } else if addr == 0xff1c {
            (self.volume * 32 + 0x9f) as u8
        } else if addr == 0xff1e {
            if self.length_counter.enabled { 0xffu8 } else { 0xbfu8 }
        } else {
            wave_sample(self.wave_ram@, self.wave_ram_idx as int)
        }
    }

    pub fn new() -> (r: Self)
        ensures
            r.power_on(),
            r.wf(),
            !r.enabled && !r.dac_enabled,
            r.div == 0 && r.volume == 0 && r.period == 0,
            r.wave_ram_idx == 1,
            forall|i: int| 0 <= i < 16 ==> r.wave_ram@[i] == 0,
            r.length_counter == (LengthCounter { enabled: false, value: 0, max: 256 }),
    {
        WaveChannel {
            enabled: false,
            dac_enabled: false,
            length_counter: LengthCounter::new(256),
            div: 0,
            volume: 0,
            period: 0,
            wave_ram_idx: 1,
            wave_ram: [0; 0x10],
        }
    }

    /// Length step: the channel is silenced when its length runs out.
    pub fn tick_length_timer(&mut self)
        requires
            old(self).wf(),
        ensures
            final(self).wf(),
            *final(self) == old(self).after_length_tick(),
    {
        if self.length_counter.tick() {
            self.enabled = false;
        }
    }

    /// Power-off: registers cleared, position back to 1; wave RAM is kept.
    pub fn reset(&mut self)
        requires
            old(self).wf(),
        ensures
            final(self).wf(),
            *final(self) == old(self).after_reset(),
            !final(self).enabled && !final(self).dac_enabled,
            final(self).div == 0 && final(self).volume == 0 && final(self).period == 0,
            final(self).wave_ram_idx == 1,
            final(self).length_counter == (LengthCounter { enabled: false, value: 0, max: 256 }),
            final(self).wave_ram == old(self).wave_ram,
    {
        self.enabled = false;
        self.dac_enabled = false;
        self.div = 0;
        self.volume = 0;
        self.period = 0;
        self.length_counter.reset();
        self.wave_ram_idx = 1;
    }

    /// The current sample scaled by the output level: 0 when muted, else the
    /// sample shifted right by the level code minus one.
    pub fn output(&self) -> (r: u8)
        requires
            self.wf(),
        ensures
            r == if self.volume == 0 {
                0u8
            } else {
                wave_sample(self.wave_ram@, self.wave_ram_idx as int) >> ((self.volume - 1) as u8)
            },
    {
        let byte = self.wave_ram[self.wave_ram_idx / 2];
        let sample = if self.wave_ram_idx % 2 == 0 { (byte >> 4) & 0xf } else { byte & 0xf };
        assert((byte >> 4) & 0xf == byte / 16) by { lemma_u8_fields(byte); }
        assert(byte & 0xf == byte % 16) by { lemma_u8_fields(byte); }
        if self.volume == 0 {
            return 0;
        }
        sample >> (self.volume - 1)
    }

    /// One clock: an enabled channel with its DAC on counts its divider down and,
    /// at 0, reloads it from the period and moves to the next sample.
    pub fn tick(&mut self)
        requires
            old(self).wf(),
            old(self).tick_safe(),
        ensures
            final(self).wf(),
            *final(self) == old(self).after_tick(),
    {
        if !self.enabled || !self.dac_enabled {
            return;
        }
        self.div = self.div - 1;
        if self.div == 0 {
            self.div = self.period;
            self.wave_ram_idx = (self.wave_ram_idx + 1) % 32;
        }
    }

    pub fn enabled(&self) -> (r: bool)
        ensures
            r == self.enabled,
    {
        self.enabled
    }

    fn trigger(&mut self, div_apu: u8)
        requires
            old(self).wf(),
        ensures
            final(self).wf(),
            *final(self) == old(self).after_trigger(div_apu),
    {
        self.enabled = self.dac_enabled;
        if self.length_counter.trigger() && div_apu % 2 == 0 && self.length_counter.tick() {
            self.enabled = false;
        }
        self.div = self.period;
        self.wave_ram_idx = 1;
    }

    /// Register write (NR30-NR34, wave RAM).
    pub fn write(&mut self, addr: u16, value: u8, div_apu: u8)
        requires
            old(self).wf(),
            Self::handles(addr),
        ensures
            final(self).wf(),
            *final(self) == old(self).after_write(addr, value, div_apu),
    {
        if addr == 0xff1a {
            let prev_dac_enabled = self.dac_enabled;
            assert(((value >> 7) & 1 == 1) == (value >= 128)) by { lemma_u8_fields(value); }
            self.dac_enabled = (value >> 7) & 1 == 1;
            if prev_dac_enabled && !self.dac_enabled {
                self.enabled = false;
            }
        } else if addr == 0xff1b {
            self.length_counter.set(value);
        } else if addr == 0xff1c {
            assert((value >> 5) & 0b11 == (value / 32) % 4) by { lemma_u8_fields(value); }
            self.volume = (value >> 5) & 0b11;
        } else if addr == 0xff1d {
            let p = self.period;
            assert((p & 0x700) | (value as u16) == (p / 256) % 8 * 256 + value) by { lemma_u16_with_byte(p, value); }
            self.period = (self.period & 0x700) | value as u16;
        } else if addr == 0xff1e {
            let lc_enabled = self.length_counter.enabled();
            self.length_counter.set_enabled(value & 0x40 == 0x40);
            if !lc_enabled && self.length_counter.enabled() && div_apu % 2 == 0
                && self.length_counter.value > 0 && self.length_counter.tick() {
                self.enabled = false;
            }
            let p = self.period;
            assert((p & 0xff) | ((value as u16) << 8u16) == (p % 256) + value * 256) by { lemma_u16_with_byte(p, value); }
            self.period = (self.period & 0xff) | ((value as u16) << 8);
            assert(((value >> 7) & 1 == 1) == (value >= 128)) by { lemma_u8_fields(value); }
            if (value >> 7) & 1 == 1 {
                self.trigger(div_apu);
            }
        } else {
            self.wave_ram[(addr - 0xff30) as usize] = value;
        }
    }

    /// Register read (NR30-NR34); wave RAM reads give the sample at the current
    /// position, write-only registers read 0xFF.
    pub fn read(&self, addr: u16) -> (r: u8)
        requires
            self.wf(),
            Self::handles(addr),
        ensures
            r == self.read_value(addr),
    {
        if addr == 0xff1a {
            if self.dac_enabled { 0xff } else { 0x7f }
        } else if addr == 0xff1b || addr == 0xff1d {
            0xff
        } else if addr == 0xff1c {
            let v = self.volume;
            assert((v << 5) | 0x9f == v * 32 + 0x9f) by { lemma_u8_fields(v); }
            (self.volume << 5) | 0x9f
        } else if addr == 0xff1e {
            if self.length_counter.enabled() { 0xff } else { 0xbf }
        } else {
            let byte = self.wave_ram[self.wave_ram_idx / 2];
            assert((byte >> 4) & 0xf == byte / 16) by { lemma_u8_fields(byte); }
            assert(byte & 0xf == byte % 16) by { lemma_u8_fields(byte); }
            if self.wave_ram_idx % 2 == 0 { (byte >> 4) & 0xf } else { byte & 0xf }
        }
    }
}

} // verus!
