use vstd::prelude::*;

verus! {

/// T-cycles per second at normal speed.
pub const CLOCK_SPEED: u32 = 4194304;
/// T-cycles per second at double speed.
pub const DOUBLE_CLOCK_SPEED: u32 = 8388608;
/// T-cycles per frame: 154 lines of 456 dots.
pub const TICKS_PER_FRAME: u32 = 70224;

#[derive(Debug, Clone, Copy, PartialEq, Eq)]
pub enum CPUSpeed {
    NORMAL,
    DOUBLE,
    CUSTOM,
}

/// Frame pacing of the CPU: counts T-cycles and says when a frame's worth has
/// elapsed; the wall-clock wait itself is the caller's.
pub struct Clock {
    /// Target duration of one frame in nanoseconds (0: run unthrottled).
    pub frame_target_nanos: u64,
    pub speed_mode: CPUSpeed,
    pub clock_ticks: u32,
}

/// Nanoseconds that one frame of `TICKS_PER_FRAME` cycles lasts at `clock_speed`
/// cycles per second (rounded down).
pub open spec fn frame_nanos(clock_speed: u32) -> int {
    (TICKS_PER_FRAME * 1_000_000_000) / (clock_speed as int)
}

fn frame_duration_nanos(clock_speed: u32) -> (r: u64)
    requires
        clock_speed > 0,
    ensures
        r == frame_nanos(clock_speed),
{
    let n: u64 = 70224u64 * 1_000_000_000u64;
    n / (clock_speed as u64)
}

impl Clock {
    /// A clock at `clock_speed` cycles per second; `u32::MAX` means unthrottled.
    pub fn new(clock_speed: u32) -> (r: Self)
        requires
            clock_speed > 0,
        ensures
            r.frame_target_nanos == if clock_speed == u32::MAX { 0 } else { frame_nanos(clock_speed) },
            r.speed_mode == CPUSpeed::NORMAL,
            r.clock_ticks == 0,
    {
        let frame_target_nanos = if clock_speed == u32::MAX {
            0
        } else {
            frame_duration_nanos(clock_speed)
        };
        Clock { frame_target_nanos, speed_mode: CPUSpeed::NORMAL, clock_ticks: 0 }
    }

    /// Counts `ticks` T-cycles; when a frame's worth has accumulated the count
    /// restarts from 0 and the result is `true` (the frame is over).
    pub fn tick(&mut self, ticks: u32) -> (frame_done: bool)
        requires
            old(self).clock_ticks < TICKS_PER_FRAME,
            ticks <= 1024,
        ensures
            final(self).clock_ticks < TICKS_PER_FRAME,
            frame_done == (old(self).clock_ticks + ticks >= TICKS_PER_FRAME),
            final(self).clock_ticks == if frame_done { 0 } else { old(self).clock_ticks + ticks },
            final(self).frame_target_nanos == old(self).frame_target_nanos,
            final(self).speed_mode == old(self).speed_mode,
    {
        self.clock_ticks = self.clock_ticks + ticks;
        if self.clock_ticks >= TICKS_PER_FRAME {
            self.clock_ticks = 0;
            return true;
        }
        false
    }

    /// Normal or double speed, with the matching frame duration.
    pub fn switch_speed(&mut self, double_speed: bool)
        ensures
            final(self).speed_mode == if double_speed { CPUSpeed::DOUBLE } else { CPUSpeed::NORMAL },
            final(self).frame_target_nanos == frame_nanos(
                if double_speed { DOUBLE_CLOCK_SPEED } else { CLOCK_SPEED },
            ),
            final(self).clock_ticks == old(self).clock_ticks,
    {
        if double_speed {
            self.speed_mode = CPUSpeed::DOUBLE;
            self.frame_target_nanos = frame_duration_nanos(DOUBLE_CLOCK_SPEED);
        } else {
            self.speed_mode = CPUSpeed::NORMAL;
            self.frame_target_nanos = frame_duration_nanos(CLOCK_SPEED);
        }
    }

    /// A custom speed of `clock_speed` cycles per second.
    pub fn set_speed(&mut self, clock_speed: u32)
        requires
            clock_speed > 0,
        ensures
            final(self).speed_mode == CPUSpeed::CUSTOM,
            final(self).frame_target_nanos == frame_nanos(clock_speed),
            final(self).clock_ticks == old(self).clock_ticks,
    {
        self.frame_target_nanos = frame_duration_nanos(clock_speed);
        self.speed_mode = CPUSpeed::CUSTOM;
    }
}

} // verus!
