use vstd::prelude::*;
use crate::bits::{lemma_pack_fields, lemma_u8_fields};

verus! {

/// The frequency sweep of square channel 1 (NR10).
#[derive(Clone, Copy)]
pub struct Sweep {
    /// Sweep pace (3 bits).
    pub period: u8,
    /// 1: each sweep step adds to the period, 0: it subtracts (down to 0).
    pub direction: u8,
    /// Sweep step (3 bits).
    pub shift: u8,
    /// Shadow copy of the channel period (11 bits).
    pub shadow: u16,
    pub enabled: bool,
    /// Steps left before the next sweep.
    pub timer: u8,
}

/// The sweep computed a period above 0x7FF.
#[derive(Debug)]
pub struct FreqOverflow;

impl Default for Sweep {
    fn default() -> (r: Self)
        ensures
            r == Sweep::default_spec(),
            r.period == 0 && r.direction == 0 && r.shift == 0,
            r.shadow == 0 && !r.enabled && r.timer == 0,
    {
        Sweep { period: 0, direction: 0, shift: 0, shadow: 0, enabled: false, timer: 0 }
    }
}

/// The period that one sweep step computes from the shadow period.
pub open spec fn sweep_value(shadow: u16, shift: u8, direction: u8) -> int {
    let delta = shadow >> shift;
    if direction == 1 {
        shadow + delta
    } else if shadow >= delta {
        shadow - delta
    } else {
        0
    }
}

/// The reload value of the sweep timer: the pace, or 8 when the pace is 0.
pub open spec fn sweep_reload(period: u8) -> u8 {
    if period != 0 { period } else { 8 }
}

impl Sweep {
    /// The sweep with every field zero and switched off.
    pub open spec fn default_spec() -> Sweep {
        Sweep { period: 0, direction: 0, shift: 0, shadow: 0, enabled: false, timer: 0 }
    }

    /// Register fields within their widths and the shadow period within 11 bits.
    pub open spec fn wf(&self) -> bool {
        &&& self.period <= 7
        &&& self.direction <= 1
        &&& self.shift <= 7
        &&& self.shadow <= 0x7ff
        &&& self.timer <= 8
    }

    /// The timer value one sweep step counts down to.
    pub open spec fn counted_down(self) -> u8 {
        if self.timer > 0 { (self.timer - 1) as u8 } else { 0 }
    }

    /// The period one sweep computation yields from the shadow period.
    pub open spec fn next_period(self) -> int {
        sweep_value(self.shadow, self.shift, self.direction)
    }

    /// Whether one sweep step reports an overflow.
    pub open spec fn tick_overflows(self) -> bool {
        self.counted_down() == 0 && self.enabled && self.next_period() > 0x7ff
    }

    /// The new channel period one sweep step yields, if any.
    pub open spec fn tick_new_period(self) -> Option<u16> {
        if self.counted_down() == 0 && self.enabled && self.next_period() <= 0x7ff {
            Some(self.next_period() as u16)
        } else {
            None
        }
    }

    /// The state after one sweep step.
    pub open spec fn after_tick(self) -> Sweep {
        if self.counted_down() != 0 {
            Sweep { timer: self.counted_down(), ..self }
        } else if !self.enabled {
            Sweep { timer: sweep_reload(self.period), ..self }
        } else if self.next_period() > 0x7ff {
            Sweep { timer: sweep_reload(self.period), enabled: false, ..self }
        } else {
            Sweep { timer: sweep_reload(self.period), shadow: self.next_period() as u16, ..self }
        }
    }

    /// Whether a trigger with channel period `period` reports an overflow.
    pub open spec fn trigger_overflows(self, period: u16) -> bool {
        self.shift > 0 && sweep_value(period, self.shift, self.direction) > 0x7ff
    }

    /// The state after a trigger with channel period `period`.
    pub open spec fn after_trigger(self, period: u16) -> Sweep {
        Sweep {
            timer: sweep_reload(self.period),
            shadow: period,
            enabled: (self.shift != 0 || self.period != 0) && !self.trigger_overflows(period),
            ..self
        }
    }

    /// The state after an NR10 write of `value`.
    pub open spec fn after_set(self, value: u8) -> Sweep {
        Sweep {
            shift: value % 8,
            direction: (value / 8) % 2,
            period: (value / 16) % 8,
            ..self
        }
    }

    /// The NR10 byte of this configuration (bit 7 aside).
    pub open spec fn register_value(&self) -> int {
        self.period * 16 + self.direction * 8 + self.shift
    }

    /// NR10 write: step in bits 0-2, direction in bit 3, pace in bits 4-6.
    pub fn set(&mut self, value: u8)
        requires
            old(self).wf(),
        ensures
            final(self).wf(),
            *final(self) == old(self).after_set(value),
            final(self).shift == value % 8,
            final(self).direction == (value / 8) % 2,
            final(self).period == (value / 16) % 8,
            final(self).register_value() == value % 128,
            final(self).shadow == old(self).shadow,
            final(self).enabled == old(self).enabled,
            final(self).timer == old(self).timer,
    {
        self.shift = value & 0b111;
        self.direction = (value >> 3) & 1;
        self.period = (value >> 4) & 0b111;
        assert(value & 7 == value % 8) by { lemma_u8_fields(value); }
        assert((value >> 3) & 1 == (value / 8) % 2) by { lemma_u8_fields(value); }
        assert((value >> 4) & 7 == (value / 16) % 8) by { lemma_u8_fields(value); }
        assert(((value >> 4) & 7) * 16 + ((value >> 3) & 1) * 8 + (value & 7) == value % 128)
            by { lemma_u8_fields(value); }
    }

    /// NR10 read (bit 7 aside).
    pub fn get(&self) -> (r: u8)
        requires
            self.wf(),
        ensures
            r == self.register_value(),
    {
        let p = self.period;
        let d = self.direction;
        let s = self.shift;
        assert((p << 4) | (d << 3) | s == p * 16 + d * 8 + s) by { lemma_pack_fields(p, d, s); }
        (self.period << 4) | (self.direction << 3) | self.shift
    }

    pub fn enabled(&self) -> (r: bool)
        ensures
            r == self.enabled,
    {
        self.enabled
    }

    /// The next period: the shadow plus or minus the shadow shifted right by the
    /// step, not below 0.
    pub fn sweep(&self) -> (r: u16)
        requires
            self.wf(),
        ensures
            r == sweep_value(self.shadow, self.shift, self.direction),
            r <= 0xffe,
    {
        let delta = self.shadow >> self.shift;
        let sh = self.shadow;
        let s = self.shift;
        assert(sh >> s <= sh) by (bit_vector);
        if self.direction == 1 {
            self.shadow + delta
        } else {
            self.shadow.saturating_sub(delta)
        }
    }

    /// Computes the next period; above 0x7FF the sweep is switched off and the
    /// overflow reported.
    pub fn check_freq_overflow(&mut self) -> (r: Result<u16, FreqOverflow>)
        requires
            old(self).wf(),
        ensures
            final(self).wf(),
            final(self).period == old(self).period,
            final(self).direction == old(self).direction,
            final(self).shift == old(self).shift,
            final(self).shadow == old(self).shadow,
            final(self).timer == old(self).timer,
            sweep_value(old(self).shadow, old(self).shift, old(self).direction) > 0x7ff ==> {
                &&& r is Err
                &&& !final(self).enabled
            },
            sweep_value(old(self).shadow, old(self).shift, old(self).direction) <= 0x7ff ==> {
                &&& r == Ok::<u16, FreqOverflow>(sweep_value(old(self).shadow, old(self).shift, old(self).direction) as u16)
                &&& final(self).enabled == old(self).enabled
            },
    {
        let new = self.sweep();
        if new > 0x7ff {
            self.enabled = false;
            return Err(FreqOverflow);
        }
        Ok(new)
    }

    /// One sweep step of the frame sequencer. The timer counts down; when it
    /// reaches 0 it reloads and, if the sweep is on, the next period is computed:
    /// an overflow is reported (and switches the sweep off), else the shadow takes
    /// the new period, which is returned.
    pub fn tick(&mut self) -> (r: Result<Option<u16>, FreqOverflow>)
        requires
            old(self).wf(),
        ensures
            final(self).wf(),
            *final(self) == old(self).after_tick(),
            (r is Err) == old(self).tick_overflows(),
            r is Ok ==> r == Ok::<Option<u16>, FreqOverflow>(old(self).tick_new_period()),
            final(self).period == old(self).period,
            final(self).direction == old(self).direction,
            final(self).shift == old(self).shift,
            ({
                let t = if old(self).timer > 0 { old(self).timer - 1 } else { 0int };
                let next = sweep_value(old(self).shadow, old(self).shift, old(self).direction);
                if t != 0 {
                    &&& final(self).timer == t
                    &&& r == Ok::<Option<u16>, FreqOverflow>(None)
                    &&& final(self).shadow == old(self).shadow
                    &&& final(self).enabled == old(self).enabled
                } else {
                    &&& final(self).timer == sweep_reload(old(self).period)
                    &&& if !old(self).enabled {
                        &&& r == Ok::<Option<u16>, FreqOverflow>(None)
                        &&& final(self).shadow == old(self).shadow
                        &&& !final(self).enabled
                    } else if next > 0x7ff {
                        &&& r is Err
                        &&& final(self).shadow == old(self).shadow
                        &&& !final(self).enabled
                    } else {
                        &&& r == Ok::<Option<u16>, FreqOverflow>(Some(next as u16))
                        &&& final(self).shadow == next
                        &&& final(self).enabled
                    }
                }
            }),
    {
        if self.timer > 0 {
            self.timer = self.timer - 1;
        }
        if self.timer == 0 {
            self.timer = if self.period != 0 { self.period } else { 8 };
            if self.enabled {
                let new = match self.check_freq_overflow() {
                    Ok(v) => v,
                    Err(e) => return Err(e),
                };
                self.shadow = new;
                return Ok(Some(new));
            }
        }
        Ok(None)
    }

    /// Trigger: the timer restarts, the shadow takes the channel period, the
    /// sweep is on when pace or step is not 0, and with a non-zero step the next
    /// period is checked at once for overflow.
    pub fn trigger(&mut self, period: u16) -> (r: Result<(), FreqOverflow>)
        requires
            old(self).wf(),
            period <= 0x7ff,
        ensures
            final(self).wf(),
            *final(self) == old(self).after_trigger(period),
            (r is Err) == old(self).trigger_overflows(period),
            final(self).period == old(self).period,
            final(self).direction == old(self).direction,
            final(self).shift == old(self).shift,
            final(self).timer == sweep_reload(old(self).period),
            final(self).shadow == period,
            ({
                let on = old(self).shift != 0 || old(self).period != 0;
                let over = old(self).shift > 0
                    && sweep_value(period, old(self).shift, old(self).direction) > 0x7ff;
                &&& (r is Err) == over
                &&& final(self).enabled == (on && !over)
            }),
    {
        self.timer = if self.period != 0 { self.period } else { 8 };
        self.shadow = period;
        self.enabled = self.shift != 0 || self.period != 0;
        if self.shift > 0 {
            match self.check_freq_overflow() {
                Ok(_) => {},
                Err(e) => return Err(e),
            }
        }
        Ok(())
    }
}

} // verus!
