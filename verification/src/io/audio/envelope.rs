use vstd::prelude::*;
use crate::bits::{lemma_pack_fields, lemma_u8_fields};

verus! {

/// Volume envelope of a square or noise channel (NRx2).
#[derive(Clone, Copy)]
pub struct Envelope {
    /// Volume loaded on trigger (4 bits).
    pub init_vol: u8,
    /// 1: the volume rises, 0: it falls.
    pub direction: u8,
    /// Envelope sweep pace in frame-sequencer steps (3 bits); 0 stops it.
    pub period: u8,
    /// Current volume (4 bits).
    pub volume: u8,
    /// Steps left before the next volume change.
    pub timer: u8,
}

impl Default for Envelope {
    fn default() -> (r: Self)
        ensures
            r == Envelope::zero_spec(),
            r.init_vol == 0 && r.direction == 0 && r.period == 0,
            r.volume == 0 && r.timer == 0,
    {
        Envelope { init_vol: 0, direction: 0, period: 0, volume: 0, timer: 0 }
    }
}

impl Envelope {
    /// The envelope with every field zero.
    pub open spec fn zero_spec() -> Envelope {
        Envelope { init_vol: 0, direction: 0, period: 0, volume: 0, timer: 0 }
    }

    /// Every field is within the width of its register bits.
    pub open spec fn wf(&self) -> bool {
        &&& self.init_vol <= 15
        &&& self.direction <= 1
        &&& self.period <= 7
        &&& self.volume <= 15
        &&& self.timer <= 7
    }

    /// The state after an NRx2 write of `value`.
    pub open spec fn after_set(self, value: u8) -> Envelope {
        Envelope {
            period: value % 8,
            direction: (value / 8) % 2,
            init_vol: value / 16,
            volume: value / 16,
            timer: self.timer,
        }
    }

    /// The state after one envelope step.
    pub open spec fn after_tick(self) -> Envelope {
        if self.period == 0 {
            self
        } else {
            let t: u8 = if self.timer > 0 { (self.timer - 1) as u8 } else { 0 };
            if t == 0 {
                Envelope {
                    timer: self.period,
                    volume: if self.direction == 1 && self.volume < 15 {
                        (self.volume + 1) as u8
                    } else if self.direction == 0 && self.volume > 0 {
                        (self.volume - 1) as u8
                    } else {
                        self.volume
                    },
                    ..self
                }
            } else {
                Envelope { timer: t, ..self }
            }
        }
    }

    /// The state after a trigger.
    pub open spec fn after_trigger(self) -> Envelope {
        Envelope { volume: self.init_vol, timer: self.period, ..self }
    }

    /// Whether the DAC of the channel is on.
    pub open spec fn dac_on(self) -> bool {
        self.init_vol != 0 || self.direction != 0
    }

    /// The NRx2 byte this envelope was configured from.
    pub open spec fn register_value(&self) -> int {
        self.init_vol * 16 + self.direction * 8 + self.period
    }

    /// NRx2 write: period in bits 0-2, direction in bit 3, initial volume in bits
    /// 4-7; the volume is reloaded at once.
    pub fn set(&mut self, value: u8)
        requires
            old(self).wf(),
        ensures
            final(self).wf(),
            *final(self) == old(self).after_set(value),
            final(self).period == value % 8,
            final(self).direction == (value / 8) % 2,
            final(self).init_vol == value / 16,
            final(self).volume == value / 16,
            final(self).timer == old(self).timer,
            final(self).register_value() == value,
    {
        self.period = value & 0x7;
        self.direction = (value >> 3) & 0x1;
        self.init_vol = (value >> 4) & 0xf;
        self.volume = self.init_vol;
        assert(value & 0x7 == value % 8) by { lemma_u8_fields(value); }
        assert((value >> 3) & 0x1 == (value / 8) % 2) by { lemma_u8_fields(value); }
        assert((value >> 4) & 0xf == value / 16) by { lemma_u8_fields(value); }
    }

    /// NRx2 read: the configuration packed back into one byte.
    pub fn get(&self) -> (r: u8)
        requires
            self.wf(),
        ensures
            r == self.register_value(),
    {
        let iv = self.init_vol;
        let d = self.direction;
        let p = self.period;
        assert((iv << 4) | (d << 3) | p == iv * 16 + d * 8 + p) by { lemma_pack_fields(iv, d, p); }
        (self.init_vol << 4) | (self.direction << 3) | self.period
    }

    /// One envelope step of the frame sequencer: when the pace is not 0, the
    /// timer counts down and, when it reaches 0, reloads and moves the volume one
    /// step towards 15 (rising) or 0 (falling).
    pub fn tick(&mut self)
        requires
            old(self).wf(),
        ensures
            final(self).wf(),
            *final(self) == old(self).after_tick(),
            final(self).init_vol == old(self).init_vol,
            final(self).direction == old(self).direction,
            final(self).period == old(self).period,
            old(self).period == 0 ==> *final(self) == *old(self),
            old(self).period != 0 ==> {
                let t = if old(self).timer > 0 { old(self).timer - 1 } else { 0int };
                if t == 0 {
                    &&& final(self).timer == old(self).period
                    &&& final(self).volume == if old(self).direction == 1 && old(self).volume < 15 {
                        old(self).volume + 1
                    } else if old(self).direction == 0 && old(self).volume > 0 {
                        old(self).volume - 1
                    } else {
                        old(self).volume as int
                    }
                } else {
                    &&& final(self).timer == t
                    &&& final(self).volume == old(self).volume
                }
            },
    {
        if self.period == 0 {
            return;
        }
        if self.timer > 0 {
            self.timer = self.timer - 1;
        }
        if self.timer == 0 {
            self.timer = self.period;
            if self.direction == 1 && self.volume < 15 {
                self.volume = self.volume + 1;
            } else if self.direction == 0 && self.volume > 0 {
                self.volume = self.volume - 1;
            }
        }
    }

    pub fn volume(&self) -> (r: u8)
        ensures
            r == self.volume,
    {
        self.volume
    }

    /// Trigger: the volume restarts from the initial volume and the timer from the pace.
    pub fn trigger(&mut self)
        requires
            old(self).wf(),
        ensures
            final(self).wf(),
            *final(self) == old(self).after_trigger(),
            final(self).volume == old(self).init_vol,
            final(self).timer == old(self).period,
            final(self).init_vol == old(self).init_vol,
            final(self).direction == old(self).direction,
            final(self).period == old(self).period,
    {
        self.volume = self.init_vol;
        self.timer = self.period;
    }

    /// The channel DAC is on when the upper five bits of NRx2 are not all zero.
    pub fn dac_enabled(&self) -> (r: bool)
        requires
            self.wf(),
        ensures
            r == self.dac_on(),
            r == (self.init_vol != 0 || self.direction != 0),
            r == (self.register_value() >= 8),
    {
        let iv = self.init_vol;
        let d = self.direction;
        assert((((iv << 4) | (d << 3)) & 0xf8 > 0) == (iv != 0 || d != 0)) by { lemma_pack_fields(iv, d, 0); }
        ((self.init_vol << 4) | (self.direction << 3)) & 0xf8 > 0
    }
}

} // verus!
