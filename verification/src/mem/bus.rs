use vstd::prelude::*;
use crate::bits::{lemma_u16_join};
use crate::cpu::interrupts::Interrupts;
use crate::io::IOMMU;
use crate::mem::boot::{get_boot_rom, is_cgb, BootRom};
use crate::mem::cartridge::Cartridge;
use crate::mem::dma::{OamDMA, VramDMA};
use crate::mem::ram::{lemma_ram_read_after_write, ram_byte, RAM};

verus! {

// 0x0000-0x7FFF ROM, 0x8000-0x9FFF VRAM, 0xA000-0xBFFF external RAM,
// 0xC000-0xDFFF work RAM, 0xE000-0xFDFF echo of work RAM, 0xFE00-0xFE9F OAM,
// 0xFF00-0xFF7F I/O registers, 0xFF80-0xFFFE high RAM, 0xFFFF IE.

/// The memory bus: routes every CPU access to its device.
pub struct Bus {
    pub cartridge: Cartridge,
    pub ram: RAM,
    pub io: IOMMU,
    pub oam_dma: OamDMA,
    pub vram_dma: VramDMA,
    /// The boot ROM is mapped over 0x0000-0x00FF.
    pub booting: bool,
    pub boot_rom: Vec<u8>,
    /// IF and IE.
    pub interrupts: Interrupts,
}

impl Bus {
    pub open spec fn wf(&self) -> bool {
        &&& self.cartridge.wf()
        &&& self.ram.wf()
        &&& self.io.wf()
        &&& self.boot_rom@.len() == 0x100
    }

    /// Whether a read at `addr` stays in bounds: not the byte just past the boot
    /// ROM while it is mapped, inside the ROM image, and not at a register whose
    /// read would fail.
    pub open spec fn read_safe(&self, addr: u16) -> bool {
        if self.booting && addr <= 0x100 {
            addr < 0x100
        } else if addr <= 0x7fff || 0xa000 <= addr <= 0xbfff {
            self.cartridge.read_safe(addr)
        } else if 0xff51 <= addr <= 0xff55 {
            self.vram_dma.read_safe(addr)
        } else {
            self.io.read_safe(addr)
        }
    }

    /// The byte a read at `addr` returns.
    #[verifier::opaque]
    pub open spec fn read_value(&self, addr: u16) -> u8 {
        if self.booting && addr <= 0x100 {
            self.boot_rom@[addr as int]
        } else if addr <= 0x7fff {
            self.cartridge.read_value(addr)
        } else if addr <= 0x9fff {
            self.io.read_value(addr)
        } else if addr <= 0xbfff {
            self.cartridge.read_value(addr)
        } else if addr <= 0xdfff {
            self.ram.read_value(addr)
        } else if addr <= 0xfdff {
            self.ram.read_value((addr - 0x2000) as u16)
        } else if addr <= 0xfe9f {
            self.io.read_value(addr)
        } else if addr == 0xff0f {
            self.interrupts.flags
        } else if addr == 0xff46 {
            0xff
        } else if 0xff51 <= addr <= 0xff55 {
            self.vram_dma.read_value(addr)
        } else if addr == 0xff70 {
            self.ram.read_value(addr)
        } else if 0xff00 <= addr <= 0xff7f {
            self.io.read_value(addr)
        } else if 0xff80 <= addr <= 0xfffe {
            self.ram.read_value(addr)
        } else if addr == 0xffff {
            self.interrupts.enable
        } else {
            0xff
        }
    }

    /// The state after a write of `value` at `addr`.
    #[verifier::opaque]
    pub open spec fn after_write(self, addr: u16, value: u8) -> Bus {
        if addr <= 0x7fff {
            Bus { cartridge: self.cartridge.after_write(addr, value), ..self }
        } else if addr <= 0x9fff {
            Bus { io: self.io.after_write(addr, value), ..self }
        } else if addr <= 0xbfff {
            Bus { cartridge: self.cartridge.after_write(addr, value), ..self }
        } else if addr <= 0xdfff {
            Bus { ram: self.ram.after_write(addr, value), ..self }
        } else if addr <= 0xfdff {
            Bus { ram: self.ram.after_write((addr - 0x2000) as u16, value), ..self }
        } else if addr <= 0xfe9f {
            Bus { io: self.io.after_write(addr, value), ..self }
        } else if addr == 0xff0f {
            Bus { interrupts: Interrupts { flags: value, ..self.interrupts }, ..self }
        } else if addr == 0xff46 {
            Bus { oam_dma: OamDMA { src: (value * 0x100) as u16, dst: 0xfe00 }, ..self }
        } else if addr == 0xff50 {
            Bus { booting: false, ..self }
        } else if addr == 0xff70 {
            Bus { ram: self.ram.after_write(addr, value), ..self }
        } else if 0xff51 <= addr <= 0xff55 {
            Bus { vram_dma: self.vram_dma.after_write(addr, value), ..self }
        } else if 0xff00 <= addr <= 0xff7f {
            Bus { io: self.io.after_write(addr, value), ..self }
        } else if 0xff80 <= addr <= 0xfffe {
            Bus { ram: self.ram.after_write(addr, value), ..self }
        } else if addr == 0xffff {
            Bus { interrupts: Interrupts { enable: value, ..self.interrupts }, ..self }
        } else {
            self
        }
    }

    /// A bus over `cartridge`, with boot ROM `boot_rom` (its image in
    /// `boot_image`) mapped unless it is `NONE`.
    pub fn new(cartridge: Cartridge, boot_rom: BootRom, boot_image: &[u8]) -> (r: Self)
        requires
            cartridge.wf(),
            boot_rom != BootRom::NONE && !is_cgb(boot_rom) ==> boot_image@.len() == 0x100,
            is_cgb(boot_rom) ==> boot_image@.len() >= 0x900,
        ensures
            r.wf(),
            r.booting == (boot_rom != BootRom::NONE),
            r.interrupts.flags == 0 && r.interrupts.enable == 0,
            r.oam_dma.src == 0 && r.oam_dma.dst == 0,
            r.vram_dma.src == 0xff && r.vram_dma.dst == 0xff && r.vram_dma.remaining == 0,
            r.vram_dma.mode == crate::mem::dma::VramDMAMode::IDLE,
            r.cartridge == cartridge,
            r.ram.wram_bank == 1,
            forall|i: int| 0 <= i < 0x8000 ==> r.ram.wram@[i] == 0,
            forall|i: int| 0 <= i < 0x80 ==> r.ram.hram@[i] == 0,
            r.io.power_on(),
            r.io.serial.sb == 0 && r.io.serial.sc == 0,
            r.io.timer.div == 0 && r.io.timer.tima == 0 && r.io.timer.tma == 0 && r.io.timer.tac == 0,
            r.io.joypad.state == 0xff,
            r.io.apu.master_control == 0,
            r.io.ppu.frames == 0 && r.io.ppu.line_ticks == 0,
            boot_rom == BootRom::NONE ==> r.boot_rom@ == Seq::new(0x100, |i: int| 0u8),
            boot_rom != BootRom::NONE && !is_cgb(boot_rom) ==> r.boot_rom@ == boot_image@,
            is_cgb(boot_rom) ==> r.boot_rom@ == boot_image@.subrange(0, 0x100),
    {
        let (rom, _) = get_boot_rom(boot_rom, boot_image);
        Bus {
            cartridge,
            ram: RAM::new(),
            io: IOMMU::new(),
            oam_dma: OamDMA::default(),
            vram_dma: VramDMA::default(),
            booting: boot_rom != BootRom::NONE,
            boot_rom: rom,
            interrupts: Interrupts::new(),
        }
    }

    /// Whether a read at `addr` is safe (see `read_safe`).
    pub fn readable(&self, addr: u16) -> (r: bool)
        requires
            self.wf(),
        ensures
            r == self.read_safe(addr),
    {
        if self.booting && addr <= 0x100 {
            addr < 0x100
        } else if addr <= 0x7fff || (0xa000 <= addr && addr <= 0xbfff) {
            self.cartridge.readable(addr)
        } else if 0xff51 <= addr && addr <= 0xff55 {
            addr != 0xff55 || self.vram_dma.remaining == 0 || self.vram_dma.remaining >= 16
        } else {
            (addr != 0xff00 || self.io.joypad.selector & (crate::io::joypad::ACTION | crate::io::joypad::PAD) != 0)
                && addr != 0xff46
        }
    }

    /// Reads a byte.
    pub fn read(&self, addr: u16) -> (r: u8)
        requires
            self.wf(),
            self.read_safe(addr),
        ensures
            r == self.read_value(addr),
    {
        reveal(Bus::read_value);
        if self.booting && addr <= 0x100 {
            return self.boot_rom[addr as usize];
        }
        if addr <= 0x7fff {
            self.cartridge.read(addr)
        } else if addr <= 0x9fff {
            self.io.read(addr)
        } else if addr <= 0xbfff {
            self.cartridge.read(addr)
        } else if addr <= 0xdfff {
            self.ram.read(addr)
        } else if addr <= 0xfdff {
            self.ram.read(addr - 0x2000)
        } else if addr <= 0xfe9f {
            self.io.read(addr)
        } else if addr == 0xff0f {
            self.interrupts.flags
        } else if addr == 0xff46 {
            0xff
        } else if 0xff51 <= addr && addr <= 0xff55 {
            self.vram_dma.read(addr)
        } else if addr == 0xff70 {
            self.ram.read(addr)
        } else if 0xff00 <= addr && addr <= 0xff7f {
            self.io.read(addr)
        } else if 0xff80 <= addr && addr <= 0xfffe {
            self.ram.read(addr)
        } else if addr == 0xffff {
            self.interrupts.enable
        } else {
            0xff
        }
    }

    /// Reads a little-endian word: the byte at `addr` is the low one.
    pub fn read16(&self, addr: u16) -> (r: u16)
        requires
            self.wf(),
            addr < 0xffff,
            self.read_safe(addr),
            self.read_safe((addr + 1) as u16),
        ensures
            r == self.read_value(addr) + self.read_value((addr + 1) as u16) * 256,
    {
        let lo = self.read(addr);
        let hi = self.read(addr + 1);
        assert(((hi as u16) << 8u16) | (lo as u16) == lo + hi * 256) by { lemma_u16_join(hi, lo); }
        ((hi as u16) << 8) | lo as u16
    }

    /// Writes a byte to the device that owns `addr`.
    pub fn write(&mut self, addr: u16, value: u8)
        requires
            old(self).wf(),
        ensures
            final(self).wf(),
            *final(self) == old(self).after_write(addr, value),
    {
        reveal(Bus::after_write);
        if addr <= 0x7fff {
            self.cartridge.write(addr, value);
        } else if addr <= 0x9fff {
            self.io.write(addr, value);
        } else if addr <= 0xbfff {
            self.cartridge.write(addr, value);
        } else if addr <= 0xdfff {
            self.ram.write(addr, value);
        } else if addr <= 0xfdff {
            self.ram.write(addr - 0x2000, value);
        } else if addr <= 0xfe9f {
            self.io.write(addr, value);
        } else if addr == 0xff0f {
            self.interrupts.flags = value;
        } else if addr == 0xff46 {
            self.oam_dma.init(value);
        } else if addr == 0xff50 {
            self.booting = false;
        } else if addr == 0xff70 {
            self.ram.write(addr, value);
        } else if 0xff51 <= addr && addr <= 0xff55 {
            self.vram_dma.write(addr, value);
        } else if 0xff00 <= addr && addr <= 0xff7f {
            self.io.write(addr, value);
        } else if 0xff80 <= addr && addr <= 0xfffe {
            self.ram.write(addr, value);
        } else if addr == 0xffff {
            self.interrupts.enable = value;
        }
    }
}

/// Whether `addr` is backed by RAM on the bus: work RAM, its echo or high RAM.
pub open spec fn bus_ram_byte(addr: u16) -> bool {
    0xc000 <= addr <= 0xfdff || 0xff80 <= addr <= 0xfffe
}

/// The RAM byte an address of work RAM, its echo or high RAM stands for.
pub open spec fn ram_home(addr: u16) -> u16 {
    if 0xe000 <= addr <= 0xfdff { (addr - 0x2000) as u16 } else { addr }
}

/// The bus reads RAM back: after a write of `value` at a RAM address `addr`
/// (work RAM, its echo, high RAM), a read of `addr` or of its mirror returns
/// `value`, and every other RAM address reads as before.
pub proof fn lemma_bus_read_after_write(b: Bus, addr: u16, value: u8, other: u16)
    requires
        b.wf(),
        bus_ram_byte(addr),
        bus_ram_byte(other),
    ensures
        b.after_write(addr, value).read_value(addr) == value,
        ram_home(other) == ram_home(addr) ==> b.after_write(addr, value).read_value(other) == value,
        ram_home(other) != ram_home(addr) ==> b.after_write(addr, value).read_value(other) == b.read_value(other),
        b.after_write(addr, value).read_safe(other) == b.read_safe(other),
        b.after_write(addr, value).wf(),
{
    reveal(Bus::after_write);
    reveal(Bus::read_value);
    reveal(crate::io::IOMMU::after_write);
    let h = ram_home(addr);
    lemma_ram_read_after_write(b.ram, h, value, if h == 0xc000 { 0xc001 } else { 0xc000 });
    if ram_home(other) != h {
        lemma_ram_read_after_write(b.ram, h, value, ram_home(other));
    }
}

/// Without a bank controller the ROM area is read-only: a write below 0x8000
/// changes no byte the bus reads.
pub proof fn lemma_rom_write_ignored(b: Bus, addr: u16, value: u8, other: u16)
    requires
        addr <= 0x7fff,
        b.cartridge.mbc is None,
    ensures
        b.after_write(addr, value).read_value(other) == b.read_value(other),
{
    reveal(Bus::after_write);
}

} // verus!
