use vstd::prelude::*;
use crate::bits::{lemma_u8_fields};

verus! {

// Times are microseconds since the Unix epoch, read by the caller.

/// `a / b` rounded toward zero, as Rust and chrono divide.
pub open spec fn tdiv(a: int, b: int) -> int {
    if a >= 0 { a / b } else { -((-a) / b) }
}

/// The remainder that goes with `tdiv`: it has the sign of `a`.
pub open spec fn trem(a: int, b: int) -> int {
    a - tdiv(a, b) * b
}

fn tdiv_exec(a: i128, b: i128) -> (q: i128)
    requires
        b > 0,
        a > i128::MIN,
    ensures
        q == tdiv(a as int, b as int),
{
    if a >= 0 { a / b } else { -((-a) / b) }
}

/// The real-time clock of an MBC3 cartridge. It counts from `start`; a latch
/// copies the time elapsed since then into the day, hour, minute and second
/// registers.
#[derive(Clone, Copy, Debug)]
pub struct RTC {
    pub start: i128,
    pub latch_reg: u8,
    pub seconds: u8,
    pub minutes: u8,
    pub hours: u8,
    pub days: u16,
}

/// The number of seconds that the registers of `r` stand for.
pub open spec fn rtc_total_seconds(r: RTC) -> int {
    r.days * 86400 + r.hours * 3600 + r.minutes * 60 + r.seconds
}

impl RTC {
    /// `start` stays far from the ends of `i128`.
    pub open spec fn wf(&self) -> bool {
        -0x1_0000_0000_0000_0000_0000 < self.start < 0x1_0000_0000_0000_0000_0000
    }

    /// The registers after a latch at time `now`: the whole seconds elapsed
    /// since `start`, split into days, hours, minutes and seconds (each part
    /// rounded toward zero and cut to the width of its register).
    pub open spec fn latched_at(self, now: i64) -> RTC {
        let secs = tdiv(now - self.start, 1_000_000);
        let days = tdiv(secs, 86400);
        let r1 = trem(secs, 86400);
        let r2 = trem(r1, 3600);
        RTC {
            days: days as u16,
            hours: tdiv(r1, 3600) as u8,
            minutes: tdiv(r2, 60) as u8,
            seconds: trem(r2, 60) as u8,
            ..self
        }
    }

    /// The state after writing `value` to register `register`: a latch at
    /// `latch_time`, the write into the latched registers, then the clock set
    /// running from `now` minus the time the registers stand for.
    pub open spec fn written_at(self, register: usize, value: u8, latch_time: i64, now: i64) -> RTC {
        let l = self.latched_at(latch_time);
        let w = if register == 0x8 {
            RTC { seconds: value, ..l }
        } else if register == 0x9 {
            RTC { minutes: value, ..l }
        } else if register == 0xa {
            RTC { hours: value, ..l }
        } else if register == 0xb {
            RTC { days: (l.days & 0x0f00) | (value as u16), ..l }
        } else {
            RTC { days: (l.days & 0xff) | (((value as u16) & 1) << 8u16), ..l }
        };
        RTC { start: (now - rtc_total_seconds(w) * 1_000_000) as i128, ..w }
    }

    /// A clock that starts at `now`, with all registers zero.
    pub fn new(now: i64) -> (r: RTC)
        ensures
            r.wf(),
            r == (RTC { start: now as i128, latch_reg: 0, seconds: 0, minutes: 0, hours: 0, days: 0 }),
    {
        RTC { start: now as i128, latch_reg: 0, seconds: 0, minutes: 0, hours: 0, days: 0 }
    }

    /// Latches the time elapsed at `now` (see `latched_at`).
    pub fn latch(&mut self, now: i64)
        requires
            old(self).wf(),
        ensures
            *final(self) == old(self).latched_at(now),
            final(self).wf(),
    {
        let elapsed: i128 = now as i128 - self.start;
        let secs = tdiv_exec(elapsed, 1_000_000);
        let days = tdiv_exec(secs, 86400);
        let r1 = secs - days * 86400;
        let hours = tdiv_exec(r1, 3600);
        let r2 = r1 - hours * 3600;
        let minutes = tdiv_exec(r2, 60);
        let seconds = r2 - minutes * 60;
        self.days = days as u16;
        self.hours = hours as u8;
        self.minutes = minutes as u8;
        self.seconds = seconds as u8;
    }

    /// The value of register `register` (0x8 seconds, 0x9 minutes, 0xA hours,
    /// 0xB low byte of the days, 0xC bit 8 of the days).
    pub open spec fn read_value(&self, register: usize) -> u8 {
        if register == 0x8 {
            self.seconds
        } else if register == 0x9 {
            self.minutes
        } else if register == 0xa {
            self.hours
        } else if register == 0xb {
            (self.days & 0xff) as u8
        } else {
            ((self.days >> 8u16) & 1) as u8
        }
    }

    /// Reads register `register` (0x8 to 0xC).
    pub fn read(&self, register: usize) -> (r: u8)
        requires
            0x8 <= register <= 0xc,
        ensures
            r == self.read_value(register),
    {
        if register == 0x8 {
            self.seconds
        } else if register == 0x9 {
            self.minutes
        } else if register == 0xa {
            self.hours
        } else if register == 0xb {
            (self.days & 0xff) as u8
        } else {
            ((self.days >> 8) & 1) as u8
        }
    }

    /// Writes register `register` (0x8 to 0xC), latching at `latch_time` and
    /// restarting the clock at `now` (see `written_at`).
    pub fn write(&mut self, register: usize, value: u8, latch_time: i64, now: i64)
        requires
            old(self).wf(),
            0x8 <= register <= 0xc,
        ensures
            *final(self) == old(self).written_at(register, value, latch_time, now),
            final(self).wf(),
    {
        self.latch(latch_time);
        if register == 0x8 {
            self.seconds = value;
        } else if register == 0x9 {
            self.minutes = value;
        } else if register == 0xa {
            self.hours = value;
        } else if register == 0xb {
            self.days = (self.days & 0x0f00) | value as u16;
        } else {
            self.days = (self.days & 0xff) | ((value as u16 & 1) << 8);
        }
        let total: i128 = self.days as i128 * 86400 + self.hours as i128 * 3600 + self.minutes as i128 * 60
            + self.seconds as i128;
        self.start = now as i128 - total * 1_000_000;
    }

}


/// The number of 8 KiB RAM banks that the header's RAM size code gives.
pub open spec fn ram_banks_of(code: u8) -> nat {
    if code == 2 {
        1
    } else if code == 3 {
        4
    } else if code == 4 {
        16
    } else if code == 5 {
        8
    } else {
        0
    }
}

/// The number of 8 KiB RAM banks for a RAM size code (0x0149 of the header).
pub fn ram_bank_count(code: u8) -> (r: usize)
    ensures
        r == ram_banks_of(code),
{
    if code == 2 {
        1
    } else if code == 3 {
        4
    } else if code == 4 {
        16
    } else if code == 5 {
        8
    } else {
        0
    }
}

/// Bytes of battery-backed RAM an MBC3 cartridge can hold: 16 banks of 8 KiB.
pub const SRAM_SIZE: usize = 0x20000;

/// The MBC3 bank controller: switchable 16 KiB ROM banks at 0x4000-0x7FFF, and
/// at 0xA000-0xBFFF either an 8 KiB RAM bank (0 to 7) or a clock register (0x8
/// to 0xC). The cartridge has `ram_banks` RAM banks, one after the other at the
/// start of `sram`.
pub struct MBC3 {
    pub rom: Vec<u8>,
    pub ram_rtc_enable: bool,
    pub rom_bank: usize,
    pub ram_bank_rtc_reg: usize,
    pub sram: [u8; 0x20000],
    pub ram_banks: usize,
    pub has_save: bool,
    pub rtc: Option<RTC>,
}

impl MBC3 {
    pub open spec fn wf(&self) -> bool {
        &&& 1 <= self.rom_bank < 0x80
        &&& self.ram_bank_rtc_reg < 0x10
        &&& self.ram_banks <= 16
        &&& self.rtc matches Some(r) ==> r.wf()
    }

    /// Where a read or write of 0xA000-0xBFFF lands in `sram`.
    pub open spec fn sram_index(&self, addr: u16) -> int {
        self.ram_bank_rtc_reg * 0x2000 + (addr - 0xa000)
    }

    /// Where a read of 0x4000-0x7FFF lands in the ROM.
    pub open spec fn rom_index(&self, addr: u16) -> int {
        self.rom_bank * 0x4000 + (addr - 0x4000)
    }

    /// Whether the selected RAM bank or clock register exists.
    pub open spec fn selection_exists(&self) -> bool {
        if self.ram_bank_rtc_reg <= 7 { self.ram_bank_rtc_reg < self.ram_banks } else { self.ram_bank_rtc_reg <= 0xc }
    }

    /// Whether a read at `addr` stays inside the ROM and names a RAM bank or
    /// register that exists.
    pub open spec fn read_safe(&self, addr: u16) -> bool {
        if addr <= 0x3fff {
            (addr as int) < self.rom@.len()
        } else if addr <= 0x7fff {
            self.rom_index(addr) < self.rom@.len()
        } else if 0xa000 <= addr <= 0xbfff {
            self.selection_exists()
        } else {
            true
        }
    }

    /// The byte a read at `addr` returns.
    pub open spec fn read_value(&self, addr: u16) -> u8 {
        if addr <= 0x3fff {
            self.rom@[addr as int]
        } else if addr <= 0x7fff {
            self.rom@[self.rom_index(addr)]
        } else if 0xa000 <= addr <= 0xbfff {
            if self.ram_bank_rtc_reg <= 7 {
                self.sram@[self.sram_index(addr)]
            } else if !self.ram_rtc_enable {
                0xff
            } else {
                match self.rtc {
                    Some(r) => r.read_value(self.ram_bank_rtc_reg),
                    None => 0xff,
                }
            }
        } else {
            0xff
        }
    }

    /// Whether a write at `addr` names a RAM bank or register that exists.
    pub open spec fn write_safe(&self, addr: u16) -> bool {
        (0xa000 <= addr <= 0xbfff && self.ram_rtc_enable) ==> self.selection_exists()
    }

    /// The state after a write of `value` at `addr`, with a clock latch at
    /// `latch_time` and a clock restart at `now` where the write reaches the
    /// clock.
    pub open spec fn after_write(self, addr: u16, value: u8, latch_time: i64, now: i64) -> MBC3 {
        if addr <= 0x1fff {
            MBC3 { ram_rtc_enable: value == 0x0a, ..self }
        } else if addr <= 0x3fff {
            MBC3 { rom_bank: if value & 0x7f == 0 { 1 } else { (value & 0x7f) as usize }, ..self }
        } else if addr <= 0x5fff {
            MBC3 { ram_bank_rtc_reg: (value & 0xf) as usize, ..self }
        } else if addr <= 0x7fff {
            match self.rtc {
                Some(r) => {
                    let l = if r.latch_reg == 0 && value == 1 { r.latched_at(latch_time) } else { r };
                    MBC3 { rtc: Some(RTC { latch_reg: value, ..l }), ..self }
                },
                None => self,
            }
        } else if 0xa000 <= addr <= 0xbfff && self.ram_rtc_enable {
            if self.ram_bank_rtc_reg <= 7 {
                MBC3 { sram: vstd::array::spec_array_update(self.sram, self.sram_index(addr), value), ..self }
            } else {
                match self.rtc {
                    Some(r) => MBC3 { rtc: Some(r.written_at(self.ram_bank_rtc_reg, value, latch_time, now)), ..self },
                    None => self,
                }
            }
        } else {
            self
        }
    }


    /// The controller that `new` makes.
    pub open spec fn initial(self, rom: Seq<u8>, sram: Seq<u8>, has_save: bool, has_rtc: bool, now: i64) -> bool {
        &&& self.rom@ == rom
        &&& !self.ram_rtc_enable
        &&& self.rom_bank == 1
        &&& self.ram_bank_rtc_reg == 0
        &&& self.ram_banks == sram.len() / 0x2000
        &&& (forall|i: int| 0 <= i < sram.len() ==> self.sram@[i] == sram[i])
        &&& (forall|i: int| sram.len() <= i < SRAM_SIZE ==> self.sram@[i] == 0)
        &&& self.has_save == has_save
        &&& self.rtc == if has_rtc {
            Some(RTC { start: now as i128, latch_reg: 0, seconds: 0, minutes: 0, hours: 0, days: 0 })
        } else {
            None
        }
    }

    /// A controller over the ROM image `rom` and the RAM banks `sram` (read
    /// from the save file, or blank), with a clock started at `now` when the
    /// cartridge has one. ROM bank 1 is mapped, and RAM and clock are disabled.
    pub fn new(rom: Vec<u8>, sram: &[u8], has_save: bool, has_rtc: bool, now: i64) -> (r: MBC3)
        requires
            sram@.len() <= SRAM_SIZE,
            sram@.len() % 0x2000 == 0,
        ensures
            r.wf(),
            r.initial(rom@, sram@, has_save, has_rtc, now),
    {
        let mut banks = [0u8; 0x20000];
        let n = sram.len();
        let mut i: usize = 0;
        while i < n
            invariant
                n == sram@.len(),
                n <= SRAM_SIZE,
                i <= n,
                forall|j: int| 0 <= j < i ==> banks@[j] == sram@[j],
                forall|j: int| n <= j < SRAM_SIZE ==> banks@[j] == 0,
            decreases n - i,
        {
            banks[i] = sram[i];
            i = i + 1;
        }
        MBC3 {
            rom,
            ram_rtc_enable: false,
            rom_bank: 1,
            ram_bank_rtc_reg: 0,
            sram: banks,
            ram_banks: n / 0x2000,
            has_save,
            rtc: if has_rtc { Some(RTC::new(now)) } else { None },
        }
    }

    /// Whether a read at `addr` is safe (see `read_safe`).
    pub fn readable(&self, addr: u16) -> (r: bool)
        requires
            self.wf(),
        ensures
            r == self.read_safe(addr),
    {
        if addr <= 0x3fff {
            (addr as usize) < self.rom.len()
        } else if addr <= 0x7fff {
            self.rom_bank * 0x4000 + (addr as usize - 0x4000) < self.rom.len()
        } else if 0xa000 <= addr && addr <= 0xbfff {
            self.selection_check()
        } else {
            true
        }
    }

    /// Whether the selected RAM bank or clock register exists.
    fn selection_check(&self) -> (r: bool)
        ensures
            r == self.selection_exists(),
    {
        if self.ram_bank_rtc_reg <= 7 { self.ram_bank_rtc_reg < self.ram_banks } else { self.ram_bank_rtc_reg <= 0xc }
    }

    /// Whether a write at `addr` is safe (see `write_safe`).
    pub fn writable(&self, addr: u16) -> (r: bool)
        ensures
            r == self.write_safe(addr),
    {
        !(0xa000 <= addr && addr <= 0xbfff && self.ram_rtc_enable) || self.selection_check()
    }

    /// Reads a byte (see `read_value`).
    pub fn read(&self, addr: u16) -> (r: u8)
        requires
            self.wf(),
            self.read_safe(addr),
        ensures
            r == self.read_value(addr),
    {
        if addr <= 0x3fff {
            self.rom[addr as usize]
        } else if addr <= 0x7fff {
            self.rom[self.rom_bank * 0x4000 + (addr as usize - 0x4000)]
        } else if 0xa000 <= addr && addr <= 0xbfff {
            if self.ram_bank_rtc_reg <= 7 {
                self.sram[self.ram_bank_rtc_reg * 0x2000 + (addr as usize - 0xa000)]
            } else if !self.ram_rtc_enable {
                0xff
            } else {
                match &self.rtc {
                    Some(r) => r.read(self.ram_bank_rtc_reg),
                    None => 0xff,
                }
            }
        } else {
            0xff
        }
    }

    /// Writes a byte, latching the clock at `latch_time` and restarting it at
    /// `now` where the write reaches it (see `after_write`).
    pub fn write(&mut self, addr: u16, value: u8, latch_time: i64, now: i64)
        requires
            old(self).wf(),
            old(self).write_safe(addr),
        ensures
            *final(self) == old(self).after_write(addr, value, latch_time, now),
            final(self).wf(),
    {
        if addr <= 0x1fff {
            self.ram_rtc_enable = value == 0x0a;
        } else if addr <= 0x3fff {
            assert(value & 0x7f < 0x80) by { lemma_u8_fields(value); }
            let bank = (value & 0x7f) as usize;
            self.rom_bank = if bank == 0 { 1 } else { bank };
        } else if addr <= 0x5fff {
            assert(value & 0xf < 0x10) by { lemma_u8_fields(value); }
            self.ram_bank_rtc_reg = (value & 0xf) as usize;
        } else if addr <= 0x7fff {
            match self.rtc {
                Some(r) => {
                    let mut r = r;
                    if r.latch_reg == 0 && value == 1 {
                        r.latch(latch_time);
                    }
                    r.latch_reg = value;
                    self.rtc = Some(r);
                },
                None => {},
            }
        } else if 0xa000 <= addr && addr <= 0xbfff {
            if self.ram_rtc_enable {
                if self.ram_bank_rtc_reg <= 7 {
                    let i = self.ram_bank_rtc_reg * 0x2000 + (addr as usize - 0xa000);
                    self.sram[i] = value;
                } else {
                    match self.rtc {
                        Some(r) => {
                            let mut r = r;
                            r.write(self.ram_bank_rtc_reg, value, latch_time, now);
                            self.rtc = Some(r);
                        },
                        None => {},
                    }
                }
            }
        }
    }

    /// The battery-backed RAM to write to the save file: its banks when the
    /// cartridge has a battery, else nothing.
    pub fn save(&self) -> (r: Option<Vec<u8>>)
        requires
            self.ram_banks <= 16,
        ensures
            self.has_save ==> r is Some && r.unwrap()@ == self.sram@.subrange(0, self.ram_banks * 0x2000),
            !self.has_save ==> r is None,
    {
        if !self.has_save {
            return None;
        }
        let n = self.ram_banks * 0x2000;
        let mut v: Vec<u8> = Vec::new();
        let mut i: usize = 0;
        while i < n
            invariant
                n == self.ram_banks * 0x2000,
                n <= SRAM_SIZE,
                i <= n,
                v@ == self.sram@.subrange(0, i as int),
            decreases n - i,
        {
            v.push(self.sram[i]);
            proof {
                assert(v@ =~= self.sram@.subrange(0, i + 1));
            }
            i = i + 1;
        }
        Some(v)
    }
}

/// A latch at the moment the clock was written gives back the registers as
/// written, when they hold a valid time of day (seconds and minutes below 60,
/// hours below 24).
pub proof fn lemma_rtc_write_then_latch(r: RTC, register: usize, value: u8, latch_time: i64, now: i64)
    requires
        r.wf(),
        0x8 <= register <= 0xc,
        ({
            let w = r.written_at(register, value, latch_time, now);
            w.seconds < 60 && w.minutes < 60 && w.hours < 24
        }),
    ensures
        ({
            let w = r.written_at(register, value, latch_time, now);
            let l = w.latched_at(now);
            l.seconds == w.seconds && l.minutes == w.minutes && l.hours == w.hours && l.days == w.days
        }),
{
    let w = r.written_at(register, value, latch_time, now);
    let t = rtc_total_seconds(w);
    assert(now - w.start == t * 1_000_000);
    assert(t >= 0);
    assert(tdiv(t * 1_000_000, 1_000_000) == t) by (nonlinear_arith)
        requires t >= 0;
    let rest = w.hours * 3600 + w.minutes * 60 + w.seconds;
    assert(0 <= rest < 86400);
    assert(t == w.days * 86400 + rest);
    assert(tdiv(t, 86400) == w.days) by (nonlinear_arith)
        requires t == w.days * 86400 + rest, 0 <= rest < 86400, w.days >= 0;
    assert(trem(t, 86400) == rest);
    let rest2 = w.minutes * 60 + w.seconds;
    assert(0 <= rest2 < 3600);
    assert(tdiv(rest, 3600) == w.hours) by (nonlinear_arith)
        requires rest == w.hours * 3600 + rest2, 0 <= rest2 < 3600, w.hours >= 0;
    assert(trem(rest, 3600) == rest2);
    assert(tdiv(rest2, 60) == w.minutes) by (nonlinear_arith)
        requires rest2 == w.minutes * 60 + w.seconds, 0 <= w.seconds < 60, w.minutes >= 0;
    assert(trem(rest2, 60) == w.seconds);
}

/// Selecting ROM bank `value` (bank 0 selects bank 1) maps that bank at
/// 0x4000-0x7FFF.
pub proof fn lemma_mbc3_rom_bank_select(m: MBC3, value: u8, addr: u16, t1: i64, t2: i64)
    requires
        m.wf(),
        0x4000 <= addr <= 0x7fff,
    ensures
        ({
            let bank: int = if value & 0x7f == 0 { 1 } else { (value & 0x7f) as int };
            m.after_write(0x2000, value, t1, t2).read_value(addr) == m.rom@[bank * 0x4000 + (addr - 0x4000)]
        }),
{
}

/// With RAM enabled and a RAM bank selected, a read gives back what a write at
/// the same address wrote.
pub proof fn lemma_mbc3_sram_read_after_write(m: MBC3, addr: u16, value: u8, t1: i64, t2: i64)
    requires
        m.wf(),
        m.ram_rtc_enable,
        m.ram_bank_rtc_reg <= 7,
        0xa000 <= addr <= 0xbfff,
    ensures
        m.after_write(addr, value, t1, t2).read_value(addr) == value,
{
}

} // verus!
