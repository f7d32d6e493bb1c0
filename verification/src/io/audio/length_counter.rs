use vstd::prelude::*;

verus! {

/// Length timer of a sound channel: counts down at 256 Hz and silences the
/// channel when it runs out.
#[derive(Clone, Copy)]
pub struct LengthCounter {
    pub enabled: bool,
    /// Steps left.
    pub value: u16,
    /// Full length: 64 for the square and noise channels, 256 for the wave one.
    pub max: u16,
}

impl Default for LengthCounter {
    fn default() -> (r: Self)
        ensures
            !r.enabled && r.value == 0 && r.max == 0,
    {
        LengthCounter { enabled: false, value: 0, max: 0 }
    }
}

impl LengthCounter {
    /// The counter never exceeds its full length.
    pub open spec fn wf(&self) -> bool {
        self.value <= self.max
    }

    /// The counter value after one length step.
    pub open spec fn ticked_value(self) -> u16 {
        if self.enabled && self.value > 0 { (self.value - 1) as u16 } else { self.value }
    }

    /// Whether one length step expires the counter.
    pub open spec fn tick_expires(self) -> bool {
        self.enabled && self.value == 1
    }

    /// The state after one length step.
    pub open spec fn after_tick(self) -> LengthCounter {
        LengthCounter { value: self.ticked_value(), ..self }
    }

    /// The state after a trigger.
    pub open spec fn after_trigger(self) -> LengthCounter {
        LengthCounter { value: if self.value == 0 { self.max } else { self.value }, ..self }
    }

    pub fn new(max: u16) -> (r: Self)
        ensures
            r.wf(),
            !r.enabled,
            r.value == 0,
            r.max == max,
    {
        LengthCounter { enabled: false, value: 0, max }
    }

    /// NRx1 write: the counter is loaded with `max - value`.
    pub fn set(&mut self, value: u8)
        requires
            value <= old(self).max,
        ensures
            final(self).wf(),
            final(self).value == old(self).max - value,
            final(self).max == old(self).max,
            final(self).enabled == old(self).enabled,
    {
        self.value = self.max - value as u16;
    }

    /// One length step: an enabled, non-zero counter decreases; the result tells
    /// whether it has just reached zero (the channel must then be silenced).
    pub fn tick(&mut self) -> (expired: bool)
        requires
            old(self).wf(),
        ensures
            final(self).wf(),
            *final(self) == old(self).after_tick(),
            expired == old(self).tick_expires(),
            final(self).max == old(self).max,
            final(self).enabled == old(self).enabled,
            final(self).value == if old(self).enabled && old(self).value > 0 {
                old(self).value - 1
            } else {
                old(self).value as int
            },
            expired == (old(self).enabled && old(self).value == 1),
    {
        if self.enabled && self.value > 0 {
            self.value = self.value - 1;
            if self.value == 0 {
                return true;
            }
        }
        false
    }

    /// Trigger: an expired counter is reloaded with the full length; the result
    /// tells whether that reload happened.
    pub fn trigger(&mut self) -> (reloaded: bool)
        requires
            old(self).wf(),
        ensures
            final(self).wf(),
            *final(self) == old(self).after_trigger(),
            reloaded == (old(self).value == 0),
            final(self).value == if old(self).value == 0 { old(self).max } else { old(self).value },
            final(self).max == old(self).max,
            final(self).enabled == old(self).enabled,
    {
        if self.value == 0 {
            self.value = self.max;
            return true;
        }
        false
    }

    pub fn set_enabled(&mut self, enabled: bool)
        ensures
            final(self).enabled == enabled,
            final(self).value == old(self).value,
            final(self).max == old(self).max,
    {
        self.enabled = enabled;
    }

    pub fn enabled(&self) -> (r: bool)
        ensures
            r == self.enabled,
    {
        self.enabled
    }

    /// Power-off: disabled and emptied, the full length is kept.
    pub fn reset(&mut self)
        ensures
            final(self).wf(),
            !final(self).enabled,
            final(self).value == 0,
            final(self).max == old(self).max,
    {
        self.enabled = false;
        self.value = 0;
    }
}

} // verus!
