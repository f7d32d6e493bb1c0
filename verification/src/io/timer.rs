use vstd::prelude::*;
use crate::bits::{lemma_u16_fields, lemma_u8_fields};
use crate::cpu::clock::CPUSpeed;
use crate::cpu::interrupts::{request_interrupt, Interrupts, TIMER};

verus! {

/// The divider and timer registers DIV, TIMA, TMA and TAC.
pub struct Timer {
    /// Internal 16-bit divider; DIV is its upper byte.
    pub div: u16,
    pub tima: u8,
    pub tma: u8,
    pub tac: u8,
    /// The divider bit selected by TAC at the last cycle.
    pub prev_div_bit: bool,
    /// TIMA overflowed: reload and interrupt happen at the next cycle.
    pub pending_overflow: bool,
}

/// The divider bit that clocks TIMA for a TAC value: bit 9, 3, 5 or 7.
pub open spec fn tac_bit_index(tac: u8) -> u16 {
    let m = tac % 4;
    if m == 0 { 9 } else if m == 1 { 3 } else if m == 2 { 5 } else { 7 }
}

/// Whether bit `bit` of `div` is set.
pub open spec fn div_bit_set(div: u16, bit: u16) -> bool {
    (div >> bit) & 1 == 1
}

/// The divider bit whose falling edge clocks the APU frame sequencer.
pub open spec fn apu_bit_index(speed: CPUSpeed) -> u16 {
    if speed == CPUSpeed::DOUBLE { 13 } else { 12 }
}

/// TIMA after one increment, and whether it overflowed.
pub open spec fn tima_inc(tima: u8) -> (u8, bool) {
    if tima == 255 { (0, true) } else { ((tima + 1) as u8, false) }
}

impl Timer {
    pub open spec fn enabled_spec(&self) -> bool {
        self.tac & 0b100 != 0
    }

    pub open spec fn div_bit_spec(&self) -> bool {
        div_bit_set(self.div, tac_bit_index(self.tac))
    }

    /// The state after one M-cycle.
    #[verifier::opaque]
    pub open spec fn after_tick(self) -> Timer {
        let t0_tima = if self.pending_overflow { self.tma } else { self.tima };
        let new_div = ((self.div + 4) % 65536) as u16;
        let cur = div_bit_set(new_div, tac_bit_index(self.tac));
        let edge = self.enabled_spec() && self.prev_div_bit && !cur;
        Timer {
            div: new_div,
            prev_div_bit: cur,
            tima: if edge { tima_inc(t0_tima).0 } else { t0_tima },
            pending_overflow: edge && tima_inc(t0_tima).1,
            ..self
        }
    }

    /// Whether one M-cycle clocks the APU frame sequencer.
    pub open spec fn tick_div_apu(self, speed: CPUSpeed) -> bool {
        div_bit_set(self.div, apu_bit_index(speed))
            && !div_bit_set(((self.div + 4) % 65536) as u16, apu_bit_index(speed))
    }

    /// The timer after TIMA is incremented when `inc` holds.
    pub open spec fn inc_if(self, inc: bool) -> Timer {
        if inc {
            Timer {
                tima: tima_inc(self.tima).0,
                pending_overflow: self.pending_overflow || tima_inc(self.tima).1,
                ..self
            }
        } else {
            self
        }
    }

    /// The state after a register write of `value` at `addr`.
    pub open spec fn after_write(self, addr: u16, value: u8) -> Timer {
        if addr == 0xff04 {
            Timer {
                div: 0,
                prev_div_bit: false,
                ..self.inc_if(self.enabled_spec() && self.div_bit_spec())
            }
        } else if addr == 0xff05 {
            Timer {
                tima: if self.pending_overflow { self.tima } else { value },
                pending_overflow: false,
                ..self
            }
        } else if addr == 0xff06 {
            Timer {
                tma: value,
                tima: if self.pending_overflow { value } else { self.tima },
                ..self
            }
        } else {
            let new_tac = value % 8;
            let was = self.enabled_spec();
            let old_bit = self.div_bit_spec();
            let now_on = new_tac & 0b100 != 0;
            let new_bit = div_bit_set(self.div, tac_bit_index(new_tac));
            let inc = (was && old_bit && (!now_on || !new_bit)) || (was && !now_on && old_bit);
            Timer { tac: new_tac, prev_div_bit: now_on && new_bit, ..self.inc_if(inc) }
        }
    }

    pub fn new() -> (r: Self)
        ensures
            r.div == 0 && r.tima == 0 && r.tma == 0 && r.tac == 0,
            !r.prev_div_bit && !r.pending_overflow,
    {
        Timer { div: 0, tima: 0, tma: 0, tac: 0, prev_div_bit: false, pending_overflow: false }
    }

    /// One M-cycle. A pending overflow completes first (TIMA takes TMA and the
    /// timer interrupt is requested); then the divider advances by 4 and TIMA
    /// is incremented on a falling edge of the selected divider bit while the
    /// timer is enabled. The result is the falling edge of the APU divider bit.
    pub fn tick(&mut self, speed_mode: CPUSpeed, ints: &mut Interrupts) -> (div_apu: bool)
        ensures
            *final(self) == old(self).after_tick(),
            div_apu == old(self).tick_div_apu(speed_mode),
            ({
                let t0_tima = if old(self).pending_overflow { old(self).tma } else { old(self).tima };
                let new_div = ((old(self).div + 4) % 65536) as u16;
                let cur = div_bit_set(new_div, tac_bit_index(old(self).tac));
                let edge = old(self).enabled_spec() && old(self).prev_div_bit && !cur;
                &&& final(self).div == new_div
                &&& final(self).tma == old(self).tma
                &&& final(self).tac == old(self).tac
                &&& final(self).prev_div_bit == cur
                &&& final(self).tima == if edge { tima_inc(t0_tima).0 } else { t0_tima }
                &&& final(self).pending_overflow == (edge && tima_inc(t0_tima).1)
                &&& final(ints).flags == if old(self).pending_overflow {
                    old(ints).flags | TIMER
                } else {
                    old(ints).flags
                }
                &&& final(ints).enable == old(ints).enable
                &&& div_apu == (div_bit_set(old(self).div, apu_bit_index(speed_mode))
                    && !div_bit_set(new_div, apu_bit_index(speed_mode)))
            }),
    {
        proof {
            reveal(Timer::after_tick);
        }
        if self.pending_overflow {
            self.pending_overflow = false;
            self.tima = self.tma;
            request_interrupt(ints, TIMER);
        }
        let div_apu_bit = self.div_apu_bit(speed_mode);
        self.div = self.div.wrapping_add(4);
        let div_apu = div_apu_bit && !self.div_apu_bit(speed_mode);
        let current_bit = self.div_bit();
        if self.timer_enabled() && self.prev_div_bit && !current_bit {
            self.inc_tima();
        }
        self.prev_div_bit = current_bit;
        div_apu
    }

    fn div_bit(&self) -> (r: bool)
        ensures
            r == self.div_bit_spec(),
    {
        let bit_idx: u16 = if self.tac & 0b11 == 0 {
            9
        } else if self.tac & 0b11 == 1 {
            3
        } else if self.tac & 0b11 == 2 {
            5
        } else {
            7
        };
        let t = self.tac;
        assert(t & 0b11 == t % 4) by { lemma_u8_fields(t); }
        (self.div >> bit_idx) & 1 == 1
    }

    fn div_apu_bit(&self, speed: CPUSpeed) -> (r: bool)
        ensures
            r == div_bit_set(self.div, apu_bit_index(speed)),
    {
        let bit: u16 = match speed {
            CPUSpeed::DOUBLE => 13,
            _ => 12,
        };
        (self.div >> bit) & 1 == 1
    }

    fn inc_tima(&mut self)
        ensures
            final(self).tima == tima_inc(old(self).tima).0,
            final(self).pending_overflow == if tima_inc(old(self).tima).1 { true } else { old(self).pending_overflow },
            final(self).div == old(self).div,
            final(self).tma == old(self).tma,
            final(self).tac == old(self).tac,
            final(self).prev_div_bit == old(self).prev_div_bit,
    {
        self.tima = self.tima.wrapping_add(1);
        if self.tima == 0 {
            self.pending_overflow = true;
        }
    }

    fn timer_enabled(&self) -> (r: bool)
        ensures
            r == self.enabled_spec(),
    {
        self.tac & 0b100 != 0
    }

    /// The byte a read at `addr` returns.
    pub open spec fn read_value(&self, addr: u16) -> u8 {
        if addr == 0xff04 {
            (self.div / 256) as u8
        } else if addr == 0xff05 {
            self.tima
        } else if addr == 0xff06 {
            self.tma
        } else {
            self.tac | 0xf8
        }
    }

    /// Register read: DIV (upper divider byte), TIMA, TMA or TAC (upper bits read 1).
    pub fn read(&self, addr: u16) -> (r: u8)
        requires
            0xff04 <= addr <= 0xff07,
        ensures
            r == self.read_value(addr),
    {
        if addr == 0xff04 {
            let d = self.div;
            assert(d >> 8 == d / 256) by { lemma_u16_fields(d); }
            (self.div >> 8) as u8
        } else if addr == 0xff05 {
            self.tima
        } else if addr == 0xff06 {
            self.tma
        } else {
            self.tac | 0xf8
        }
    }

    /// Register write. DIV: the divider restarts from 0 (a set selected bit of an
    /// enabled timer counts as a falling edge). TIMA: ignored while an overflow is
    /// pending, which it cancels. TMA: also copied to TIMA while an overflow is
    /// pending. TAC: the low 3 bits are kept; a falling edge of the selected bit
    /// (through the new selection or by disabling) increments TIMA.
    pub fn write(&mut self, addr: u16, value: u8)
        requires
            0xff04 <= addr <= 0xff07,
        ensures
            *final(self) == old(self).after_write(addr, value),
            addr == 0xff04 ==> {
                let edge = old(self).enabled_spec() && old(self).div_bit_spec();
                &&& final(self).div == 0
                &&& !final(self).prev_div_bit
                &&& final(self).tima == if edge { tima_inc(old(self).tima).0 } else { old(self).tima }
                &&& final(self).pending_overflow == (old(self).pending_overflow
                    || (edge && tima_inc(old(self).tima).1))
                &&& final(self).tma == old(self).tma
                &&& final(self).tac == old(self).tac
            },
            addr == 0xff05 ==> {
                &&& final(self).tima == if old(self).pending_overflow { old(self).tima } else { value }
                &&& !final(self).pending_overflow
                &&& final(self).div == old(self).div
                &&& final(self).tma == old(self).tma
                &&& final(self).tac == old(self).tac
                &&& final(self).prev_div_bit == old(self).prev_div_bit
            },
            addr == 0xff06 ==> {
                &&& final(self).tma == value
                &&& final(self).tima == if old(self).pending_overflow { value } else { old(self).tima }
                &&& final(self).pending_overflow == old(self).pending_overflow
                &&& final(self).div == old(self).div
                &&& final(self).tac == old(self).tac
                &&& final(self).prev_div_bit == old(self).prev_div_bit
            },
            addr == 0xff07 ==> {
                let new_tac = value % 8;
                let was = old(self).enabled_spec();
                let old_bit = old(self).div_bit_spec();
                let now_on = new_tac & 0b100 != 0;
                let new_bit = div_bit_set(old(self).div, tac_bit_index(new_tac));
                let inc = (was && old_bit && (!now_on || !new_bit)) || (was && !now_on && old_bit);
                &&& final(self).tac == new_tac
                &&& final(self).prev_div_bit == (now_on && new_bit)
                &&& final(self).tima == if inc { tima_inc(old(self).tima).0 } else { old(self).tima }
                &&& final(self).pending_overflow == (old(self).pending_overflow
                    || (inc && tima_inc(old(self).tima).1))
                &&& final(self).div == old(self).div
                &&& final(self).tma == old(self).tma
            },
    {
        if addr == 0xff04 {
            if self.timer_enabled() && self.div_bit() {
                self.inc_tima();
            }
            self.div = 0;
            self.prev_div_bit = false;
        } else if addr == 0xff05 {
            if self.pending_overflow {
                self.pending_overflow = false;
            } else {
                self.tima = value;
            }
        } else if addr == 0xff06 {
            self.tma = value;
            if self.pending_overflow {
                self.tima = value;
            }
        } else {
            let was_enabled = self.timer_enabled();
            let old_bit = self.div_bit();
            assert(value & 0b111 == value % 8) by { lemma_u8_fields(value); }
            self.tac = value & 0b111;
            let is_enabled = self.timer_enabled();
            let new_bit = self.div_bit();
            let falling_edge = was_enabled && old_bit && (!is_enabled || !new_bit);
            let dmg_disable_tick = was_enabled && !is_enabled && old_bit;
            if falling_edge || dmg_disable_tick {
                self.inc_tima();
            }
            self.prev_div_bit = is_enabled && new_bit;
        }
    }
}

/// The timer after `n` M-cycles.
pub open spec fn timer_after(t: Timer, n: nat) -> Timer
    decreases n,
{
    if n == 0 { t } else { timer_after(t, (n - 1) as nat).after_tick() }
}

/// The divider counts M-cycles: after `n` of them it has advanced by `4 * n`
/// (modulo 2^16), so DIV (its upper byte) goes up by one every 64 M-cycles.
pub proof fn lemma_divider_counts(t: Timer, n: nat)
    ensures
        timer_after(t, n).div == (t.div + 4 * n) % 65536,
        timer_after(t, n).read_value(0xff04) == (((t.div + 4 * n) % 65536) / 256) as u8,
    decreases n,
{
    reveal(Timer::after_tick);
    if n > 0 {
        lemma_divider_counts(t, (n - 1) as nat);
        let p = timer_after(t, (n - 1) as nat);
        assert(p.div == (t.div + 4 * (n - 1)) % 65536);
        vstd::arithmetic::div_mod::lemma_add_mod_noop(t.div + 4 * (n - 1), 4, 65536);
        vstd::arithmetic::div_mod::lemma_small_mod(4, 65536);
        assert(t.div + 4 * (n - 1) + 4 == t.div + 4 * n);
    }
}


/// M-cycles between two TIMA increments for a TAC value: 256, 4, 16 or 64
/// (4096, 262144, 65536 or 16384 Hz).
pub open spec fn tac_period(tac: u8) -> int {
    let m = tac % 4;
    if m == 0 { 256 } else if m == 1 { 4 } else if m == 2 { 16 } else { 64 }
}

/// Bit `b` of the divider is the parity of `div / 2^b`; it falls on a step
/// of 4 exactly when the new value is a multiple of 2^(b+1).
proof fn lemma_div_edges(d: u16, n: u16)
    by (bit_vector)
    requires
        d % 4 == 0,
        n == ((d + 4) % 65536) as u16,
    ensures
        ((d >> 9u16) & 1 == 1) == ((d / 512) % 2 == 1),
        ((d >> 3u16) & 1 == 1) == ((d / 8) % 2 == 1),
        ((d >> 5u16) & 1 == 1) == ((d / 32) % 2 == 1),
        ((d >> 7u16) & 1 == 1) == ((d / 128) % 2 == 1),
        (((d / 512) % 2 == 1) && !((n / 512) % 2 == 1)) == (n % 1024 == 0),
        (((d / 8) % 2 == 1) && !((n / 8) % 2 == 1)) == (n % 16 == 0),
        (((d / 32) % 2 == 1) && !((n / 32) % 2 == 1)) == (n % 64 == 0),
        (((d / 128) % 2 == 1) && !((n / 128) % 2 == 1)) == (n % 256 == 0),
        n % 4 == 0,
{
}

/// The timer's rate: while it is enabled and no overflow is pending, one
/// M-cycle moves the divider on by 4 and increments TIMA exactly when the new
/// divider value is a multiple of 4 * tac_period(TAC), that is once every
/// tac_period(TAC) M-cycles (TIMA wraps to 0 and an overflow becomes pending
/// after 255). The divider bit the timer remembers keeps following the
/// divider, so the same holds at the next M-cycle.
pub proof fn lemma_timer_rate(t: Timer)
    requires
        t.div % 4 == 0,
        t.prev_div_bit == ((t.div as int / (2 * tac_period(t.tac))) % 2 == 1),
        t.enabled_spec(),
        !t.pending_overflow,
    ensures
        t.after_tick().div == (t.div + 4) % 65536,
        t.after_tick().div % 4 == 0,
        t.after_tick().tac == t.tac,
        t.after_tick().tma == t.tma,
        t.after_tick().prev_div_bit == ((t.after_tick().div as int / (2 * tac_period(t.tac))) % 2 == 1),
        t.after_tick().div as int % (4 * tac_period(t.tac)) == 0 ==> t.after_tick().tima == (t.tima + 1) % 256
            && t.after_tick().pending_overflow == (t.tima == 255),
        t.after_tick().div as int % (4 * tac_period(t.tac)) != 0 ==> t.after_tick().tima == t.tima
            && !t.after_tick().pending_overflow,
{
    reveal(Timer::after_tick);
    lemma_div_edges(t.div, ((t.div + 4) % 65536) as u16);
    lemma_div_edges(((t.div + 4) % 65536) as u16, ((t.div + 8) % 65536) as u16);
}


/// Writing TAC with the enable bit set starts the timer at the rate TAC
/// selects: the divider is kept, TAC takes the low three bits of the value,
/// and the remembered divider bit is the one that `lemma_timer_rate` counts
/// from.
pub proof fn lemma_tac_write_rate(t: Timer, value: u8)
    requires
        t.div % 4 == 0,
        value & 0b100 != 0,
    ensures
        t.after_write(0xff07, value).div == t.div,
        t.after_write(0xff07, value).tac == value % 8,
        t.after_write(0xff07, value).enabled_spec(),
        t.after_write(0xff07, value).prev_div_bit
            == ((t.div as int / (2 * tac_period(value))) % 2 == 1),
{
    lemma_div_edges(t.div, ((t.div + 4) % 65536) as u16);
    lemma_u8_fields(value);
    assert((value % 8) & 0b100 != 0 && (value % 8) % 4 == value % 4) by {
        assert((value % 8) & 0b100 == value & 0b100) by (bit_vector);
    }
}


/// Overflow reload: the M-cycle after TIMA overflowed, TIMA takes TMA and the
/// overflow is no longer pending, unless that same M-cycle clocks TIMA (then
/// TMA is incremented at once).
pub proof fn lemma_timer_reload(t: Timer)
    requires
        t.div % 4 == 0,
        t.prev_div_bit == ((t.div as int / (2 * tac_period(t.tac))) % 2 == 1),
        t.pending_overflow,
    ensures
        !t.enabled_spec() || t.after_tick().div as int % (4 * tac_period(t.tac)) != 0 ==> t.after_tick().tima
            == t.tma && !t.after_tick().pending_overflow,
        t.enabled_spec() && t.after_tick().div as int % (4 * tac_period(t.tac)) == 0 ==> t.after_tick().tima
            == (t.tma + 1) % 256 && t.after_tick().pending_overflow == (t.tma == 255),
{
    reveal(Timer::after_tick);
    lemma_div_edges(t.div, ((t.div + 4) % 65536) as u16);
    lemma_div_edges(((t.div + 4) % 65536) as u16, ((t.div + 8) % 65536) as u16);
}

} // verus!
