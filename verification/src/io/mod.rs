pub mod joypad;
pub mod audio;
pub mod timer;
pub mod video;
pub mod serial;
pub mod registers;

use vstd::prelude::*;
use crate::io::audio::apu::APU;
use crate::io::joypad::Joypad;
use crate::io::serial::Serial;
use crate::io::timer::Timer;
use crate::io::video::lcd::LCD;
use crate::io::video::ppu::PPU;

verus! {

/// The memory-mapped devices: serial port, timer, PPU, APU and joypad.
pub struct IOMMU {
    pub serial: Serial,
    pub timer: Timer,
    pub ppu: PPU,
    pub apu: APU,
    pub joypad: Joypad,
}

impl IOMMU {
    pub open spec fn wf(&self) -> bool {
        self.ppu.wf() && self.apu.wf()
    }

    /// Whether a read at `addr` avoids the joypad selector with both group bits
    /// clear and the DMA register (which the bus answers itself).
    pub open spec fn read_safe(&self, addr: u16) -> bool {
        &&& (addr == 0xff00 ==> self.joypad.read_safe())
        &&& addr != 0xff46
    }

    /// The byte a read at `addr` returns.
    #[verifier::opaque]
    pub open spec fn read_value(&self, addr: u16) -> u8 {
        if 0x8000 <= addr <= 0x9fff || 0xfe00 <= addr <= 0xfe9f || addr == 0xff4f {
            self.ppu.read_value(addr)
        } else if addr == 0xff00 {
            self.joypad.read_value()
        } else if 0xff01 <= addr <= 0xff02 {
            self.serial.read_value(addr)
        } else if 0xff04 <= addr <= 0xff07 {
            self.timer.read_value(addr)
        } else if 0xff10 <= addr <= 0xff26 || 0xff30 <= addr <= 0xff3f {
            self.apu.read_value(addr)
        } else if 0xff40 <= addr <= 0xff4b || 0xff68 <= addr <= 0xff6b {
            self.ppu.lcd.read_value(addr)
        } else {
            0xff
        }
    }

    /// The state after a write of `value` at `addr`.
    #[verifier::opaque]
    pub open spec fn after_write(self, addr: u16, value: u8) -> IOMMU {
        if 0x8000 <= addr <= 0x9fff || 0xfe00 <= addr <= 0xfe9f || addr == 0xff4f {
            IOMMU { ppu: self.ppu.after_write(addr, value), ..self }
        } else if addr == 0xff00 {
            IOMMU { joypad: Joypad { selector: value & 0xf0, ..self.joypad }, ..self }
        } else if 0xff01 <= addr <= 0xff02 {
            IOMMU { serial: self.serial.after_write(addr, value), ..self }
        } else if 0xff04 <= addr <= 0xff07 {
            IOMMU { timer: self.timer.after_write(addr, value), ..self }
        } else if 0xff10 <= addr <= 0xff26 || 0xff30 <= addr <= 0xff3f {
            IOMMU { apu: self.apu.after_write(addr, value), ..self }
        } else if 0xff40 <= addr <= 0xff4b || 0xff68 <= addr <= 0xff6b {
            IOMMU { ppu: PPU { lcd: self.ppu.lcd.after_write(addr, value), ..self.ppu }, ..self }
        } else {
            self
        }
    }

    /// The devices in their power-on state.
    pub open spec fn power_on(&self) -> bool {
        &&& self.serial.sb == 0 && self.serial.sc == 0
        &&& self.timer.div == 0 && self.timer.tima == 0 && self.timer.tma == 0 && self.timer.tac == 0
        &&& !self.timer.prev_div_bit && !self.timer.pending_overflow
        &&& self.joypad.state == 0xff && self.joypad.selector == crate::io::joypad::PAD | crate::io::joypad::ACTION
        &&& self.apu.power_on()
        &&& self.ppu.power_on()
    }

    /// The devices in their power-on state.
    pub fn new() -> (r: Self)
        ensures
            r.wf(),
            r.power_on(),
            r.serial.sb == 0 && r.serial.sc == 0,
            r.timer.div == 0 && r.timer.tima == 0 && r.timer.tma == 0 && r.timer.tac == 0,
            !r.timer.prev_div_bit && !r.timer.pending_overflow,
            r.joypad.state == 0xff && r.joypad.selector == crate::io::joypad::PAD | crate::io::joypad::ACTION,
            r.apu.master_control == 0 && r.apu.panning == 0 && r.apu.master_volume == 0,
            r.apu.div_apu == 0 && r.apu.sample_clock == 0,
            r.ppu.lcd.mode_spec() == crate::io::video::lcd::PPUMode::OAMScan,
            r.ppu.vram_bank == 0 && r.ppu.line_ticks == 0 && r.ppu.line_x == 0 && r.ppu.frames == 0,
    {
        IOMMU {
            serial: Serial::default(),
            timer: Timer::new(),
            ppu: PPU::new(),
            apu: APU::new(),
            joypad: Joypad::new(),
        }
    }

    /// Dispatches a write to the device that owns `addr`; unmapped addresses
    /// are ignored.
    pub fn write(&mut self, addr: u16, value: u8)
        requires
            old(self).wf(),
            addr != 0xff46,
        ensures
            final(self).wf(),
            *final(self) == old(self).after_write(addr, value),
    {
        reveal(IOMMU::after_write);
        if (0x8000 <= addr && addr <= 0x9fff) || (0xfe00 <= addr && addr <= 0xfe9f) || addr == 0xff4f {
            self.ppu.write(addr, value);
        } else if addr == 0xff00 {
            self.joypad.write(value);
        } else if 0xff01 <= addr && addr <= 0xff02 {
            self.serial.write(addr, value);
        } else if 0xff04 <= addr && addr <= 0xff07 {
            self.timer.write(addr, value);
        } else if (0xff10 <= addr && addr <= 0xff26) || (0xff30 <= addr && addr <= 0xff3f) {
            self.apu.write(addr, value);
        } else if (0xff40 <= addr && addr <= 0xff4b) || (0xff68 <= addr && addr <= 0xff6b) {
            self.ppu.lcd.write(addr, value);
        }
    }

    /// Dispatches a read to the device that owns `addr`; unmapped addresses read 0xFF.
    pub fn read(&self, addr: u16) -> (r: u8)
        requires
            self.wf(),
            self.read_safe(addr),
        ensures
            r == self.read_value(addr),
    {
        reveal(IOMMU::read_value);
        if (0x8000 <= addr && addr <= 0x9fff) || (0xfe00 <= addr && addr <= 0xfe9f) || addr == 0xff4f {
            self.ppu.read(addr)
        } else if addr == 0xff00 {
            self.joypad.read()
        } else if 0xff01 <= addr && addr <= 0xff02 {
            self.serial.read(addr)
        } else if 0xff04 <= addr && addr <= 0xff07 {
            self.timer.read(addr)
        } else if (0xff10 <= addr && addr <= 0xff26) || (0xff30 <= addr && addr <= 0xff3f) {
            self.apu.read(addr)
        } else if (0xff40 <= addr && addr <= 0xff4b) || (0xff68 <= addr && addr <= 0xff6b) {
            self.ppu.lcd.read(addr)
        } else {
            0xff
        }
    }
}

} // verus!
