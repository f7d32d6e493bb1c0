use xenogb::cpu::clock::CLOCK_SPEED;
use xenogb::cpu::cpu::LR35902CPU;
use xenogb::io::audio::apu::DigitalSample;
use xenogb::mem::boot::{get_boot_rom, BootRom};
use xenogb::mem::bus::Bus;
use xenogb::mem::cartridge::{header_text_valid, Cartridge, CartridgeHeader};
use xenogb::mem::mbc3::{ram_bank_count, MBC3, RTC};

fn header_bytes() -> Vec<u8> {
    let mut h = vec![0u8; 28];
    h[0..11].copy_from_slice(b"TETRIS     ");
    h[11..15].copy_from_slice(b"ABCD");
    h[15] = 0x80;
    h[16..18].copy_from_slice(b"01");
    h[18] = 0x03;
    h[19] = 0x13;
    h[20] = 0x05;
    h[21] = 0x03;
    h[22] = 0x01;
    h[23] = 0x33;
    h[24] = 0x02;
    h[25] = 0xaa;
    h[26] = 0x12;
    h[27] = 0x34;
    h
}

#[test]
fn header_fields_are_read_in_order() {
    assert!(header_text_valid(&header_bytes()));
    let h = CartridgeHeader::parse(&header_bytes());
    assert_eq!(h.title, "TETRIS     ");
    assert_eq!(h.manufacturer_code, "ABCD");
    assert_eq!(h.cgb_flag, 0x80);
    assert_eq!(h.new_licensee_code, "01");
    assert_eq!(h.sgb_flag, 0x03);
    assert_eq!(h.cartridge_type, 0x13);
    assert_eq!(h.rom_size, 0x05);
    assert_eq!(h.ram_size, 0x03);
    assert_eq!(h.dest_code, 0x01);
    assert_eq!(h.old_licensee_code, 0x33);
    assert_eq!(h.rom_version, 0x02);
    assert_eq!(h.header_checksum, 0xaa);
    assert_eq!(h.global_checksum, 0x1234);
}

#[test]
fn header_with_invalid_utf8_title_is_refused() {
    let mut h = header_bytes();
    h[3] = 0xff;
    assert!(!header_text_valid(&h));
    let mut rom = vec![0u8; 0x8000];
    rom[0x134..0x150].copy_from_slice(&h);
    assert!(Cartridge::from_rom(rom).is_err());
    let mut h = header_bytes();
    h[16] = 0xc3;
    assert!(!header_text_valid(&h));
    // Bytes that are not text but valid UTF-8 are taken as they are.
    let mut h = header_bytes();
    h[12] = 0x00;
    assert_eq!(CartridgeHeader::new(&h).manufacturer_code, "A\0CD");
}

#[test]
fn cartridge_reads_its_image() {
    let mut rom = vec![0u8; 0x8000];
    rom[0x134..0x150].copy_from_slice(&header_bytes());
    rom[0x4000] = 0x42;
    let mut cart = Cartridge::from_rom(rom).ok().expect("valid header");
    assert_eq!(cart.read(0x4000), 0x42);
    assert_eq!(cart.header.global_checksum, 0x1234);
    cart.write(0x4000, 0x99);
    assert_eq!(cart.read(0x4000), 0x42);
}

#[test]
fn boot_rom_images() {
    let (none, extra) = get_boot_rom(BootRom::NONE, &[]);
    assert_eq!(none, vec![0u8; 0x100]);
    assert!(extra.is_none());
    let dmg: Vec<u8> = (0..0x100).map(|i| i as u8).collect();
    let (first, extra) = get_boot_rom(BootRom::DMG, &dmg);
    assert_eq!(first, dmg);
    assert!(extra.is_none());
    let cgb: Vec<u8> = (0..0x900).map(|i| (i % 251) as u8).collect();
    let (first, extra) = get_boot_rom(BootRom::CGB, &cgb);
    assert_eq!(first, cgb[0..0x100].to_vec());
    assert_eq!(extra.expect("second part"), cgb[0x200..0x900].to_vec());
}

#[test]
fn boot_rom_is_mapped_until_ff50_is_written() {
    let mut rom = vec![0u8; 0x8000];
    rom[0] = 0x11;
    let cart = Cartridge::from_rom(rom).ok().expect("valid header");
    let mut boot = vec![0u8; 0x100];
    // LD A, 1 ; LDH (0x50), A
    boot[0] = 0x3e;
    boot[1] = 0x01;
    boot[2] = 0xe0;
    boot[3] = 0x50;
    boot[0xff] = 0x77;
    let bus = Bus::new(cart, BootRom::DMG, &boot);
    let mut cpu = LR35902CPU::new(bus, false, CLOCK_SPEED);
    assert_eq!(cpu.pc(), 0);
    assert_eq!(cpu.read(0), 0x3e);
    let mut samples: Vec<DigitalSample> = Vec::new();
    cpu.try_step(&mut samples).expect("LD A, 1");
    cpu.try_step(&mut samples).expect("LDH (0x50), A");
    assert_eq!(cpu.read(0), 0x11);
}

#[test]
fn ram_bank_codes() {
    assert_eq!(ram_bank_count(0), 0);
    assert_eq!(ram_bank_count(2), 1);
    assert_eq!(ram_bank_count(3), 4);
    assert_eq!(ram_bank_count(4), 16);
    assert_eq!(ram_bank_count(5), 8);
}

fn mbc3_rom() -> Vec<u8> {
    // Eight 16 KiB banks; each bank's first byte is its number.
    let mut rom = vec![0u8; 8 * 0x4000];
    for b in 0..8 {
        rom[b * 0x4000] = b as u8;
    }
    rom
}

#[test]
fn mbc3_switches_rom_banks() {
    let mut m = MBC3::new(mbc3_rom(), &vec![0u8; 4 * 0x2000], true, true, 0);
    assert_eq!(m.read(0x4000), 1);
    m.write(0x2000, 5, 0, 0);
    assert_eq!(m.read(0x4000), 5);
    assert_eq!(m.read(0x0000), 0);
    // Bank 0 selects bank 1.
    m.write(0x2000, 0, 0, 0);
    assert_eq!(m.read(0x4000), 1);
    // Only the low 7 bits count.
    m.write(0x2000, 0x83, 0, 0);
    assert_eq!(m.rom_bank, 3);
}

#[test]
fn mbc3_ram_needs_enabling() {
    let mut m = MBC3::new(mbc3_rom(), &vec![0u8; 4 * 0x2000], true, false, 0);
    m.write(0xa010, 0x55, 0, 0);
    assert_eq!(m.read(0xa010), 0x00);
    m.write(0x0000, 0x0a, 0, 0);
    m.write(0xa010, 0x55, 0, 0);
    assert_eq!(m.read(0xa010), 0x55);
    m.write(0x4000, 2, 0, 0);
    assert_eq!(m.read(0xa010), 0x00);
    m.write(0xa010, 0x66, 0, 0);
    assert_eq!(m.sram[2 * 0x2000 + 0x10], 0x66);
    m.write(0x4000, 0, 0, 0);
    assert_eq!(m.read(0xa010), 0x55);
    let saved = m.save().expect("battery");
    assert_eq!(saved.len(), 4 * 0x2000);
    assert_eq!(saved[0x10], 0x55);
    assert_eq!(saved[2 * 0x2000 + 0x10], 0x66);
}

#[test]
fn mbc3_without_battery_saves_nothing() {
    let m = MBC3::new(mbc3_rom(), &vec![0u8; 0x2000], false, false, 0);
    assert!(m.save().is_none());
}

#[test]
fn mbc3_clock_latch_and_read() {
    let sec: i64 = 1_000_000;
    let mut m = MBC3::new(mbc3_rom(), &[], false, true, 0);
    // Clock registers read 0xFF while disabled.
    m.write(0x4000, 0x08, 0, 0);
    assert_eq!(m.read(0xa000), 0xff);
    m.write(0x0000, 0x0a, 0, 0);
    // Latch at 1 day, 2 hours, 3 minutes and 4.5 seconds.
    let t = (86400 + 2 * 3600 + 3 * 60 + 4) * sec + sec / 2;
    m.write(0x6000, 0, t, t);
    m.write(0x6000, 1, t, t);
    assert_eq!(m.read(0xa000), 4);
    m.write(0x4000, 0x09, 0, 0);
    assert_eq!(m.read(0xa000), 3);
    m.write(0x4000, 0x0a, 0, 0);
    assert_eq!(m.read(0xa000), 2);
    m.write(0x4000, 0x0b, 0, 0);
    assert_eq!(m.read(0xa000), 1);
    m.write(0x4000, 0x0c, 0, 0);
    assert_eq!(m.read(0xa000), 0);
    // A second write of 1 without a 0 in between does not latch again.
    m.write(0x6000, 1, 10 * t, 10 * t);
    m.write(0x4000, 0x0b, 0, 0);
    assert_eq!(m.read(0xa000), 1);
}

#[test]
fn rtc_latch_splits_elapsed_time() {
    let sec: i64 = 1_000_000;
    let mut r = RTC::new(5 * sec);
    r.latch(5 * sec + 300 * 86400 * sec + 23 * 3600 * sec + 59 * 60 * sec + 59 * sec);
    assert_eq!(r.days, 300);
    assert_eq!(r.hours, 23);
    assert_eq!(r.minutes, 59);
    assert_eq!(r.seconds, 59);
    assert_eq!(r.read(0xb), 300u16 as u8);
    assert_eq!(r.read(0xc), 1);
}

#[test]
fn rtc_write_restarts_the_clock_from_the_registers() {
    let sec: i64 = 1_000_000;
    let mut r = RTC::new(0);
    // Set the minutes to 10 at time 100 s (after a latch at 100 s: 1 min 40 s).
    r.write(0x9, 10, 100 * sec, 100 * sec);
    assert_eq!(r.minutes, 10);
    assert_eq!(r.seconds, 40);
    // The clock now runs from 10 min 40 s before 100 s.
    assert_eq!(r.start, (100 - 640) as i128 * sec as i128);
    r.latch(100 * sec + 20 * sec);
    assert_eq!(r.minutes, 11);
    assert_eq!(r.seconds, 0);
}

#[test]
fn rtc_day_high_bit() {
    let mut r = RTC::new(0);
    r.write(0xc, 0x01, 0, 0);
    assert_eq!(r.days, 0x100);
    r.write(0xb, 0x05, 0, 0);
    assert_eq!(r.days, 0x105);
    assert_eq!(r.read(0xb), 5);
    assert_eq!(r.read(0xc), 1);
}

#[test]
fn rtc_new_starts_at_the_given_time() {
    let r = RTC::new(1_700_000_000_000_000);
    assert_eq!(r.start, 1_700_000_000_000_000);
    assert_eq!(r.days, 0);
    assert_eq!(r.seconds, 0);
}

#[test]
fn mbc3_missing_ram_bank_is_not_readable() {
    let mut m = MBC3::new(mbc3_rom(), &vec![0u8; 0x2000], false, false, 0);
    m.write(0x0000, 0x0a, 0, 0);
    assert!(m.readable(0xa000));
    m.write(0x4000, 3, 0, 0);
    assert!(!m.readable(0xa000));
    assert!(!m.writable(0xa000));
    // Register 0xD is no clock register.
    m.write(0x4000, 0x0d, 0, 0);
    assert!(!m.readable(0xa000));
}

/// A 128 KiB MBC3 ROM whose bank `b` starts with `LD A, (0x4000)`-readable
/// marker `b`, with a program at 0x100.
fn mbc3_cartridge_rom(program: &[u8]) -> Vec<u8> {
    let mut rom = vec![0u8; 8 * 0x4000];
    for b in 0..8 {
        rom[b * 0x4000] = b as u8;
    }
    rom[0x147] = 0x13;
    rom[0x149] = 0x03;
    rom[0x100..0x100 + program.len()].copy_from_slice(program);
    rom
}

#[test]
fn bus_maps_mbc3_banks_and_ram() {
    // LD A, 5 ; LD (0x2000), A ; LD A, (0x4000) ; LD B, A ;
    // LD A, 0x0A ; LD (0x0000), A ; LD A, 0x99 ; LD (0xA123), A ; LD A, (0xA123)
    let program = [
        0x3e, 0x05, 0xea, 0x00, 0x20, 0xfa, 0x00, 0x40, 0x47,
        0x3e, 0x0a, 0xea, 0x00, 0x00, 0x3e, 0x99, 0xea, 0x23, 0xa1, 0x3e, 0x00, 0xfa, 0x23, 0xa1,
    ];
    let cart = Cartridge::with_controller(mbc3_cartridge_rom(&program), &vec![0u8; 4 * 0x2000], 0)
        .ok()
        .expect("valid header");
    assert!(cart.mbc.is_some());
    let bus = Bus::new(cart, BootRom::NONE, &[]);
    let mut cpu = LR35902CPU::new(bus, false, CLOCK_SPEED);
    let mut samples: Vec<DigitalSample> = Vec::new();
    for _ in 0..4 {
        cpu.try_step(&mut samples).expect("step");
    }
    assert_eq!(cpu.registers.b, 5);
    assert_eq!(cpu.read(0x4000), 5);
    for _ in 0..6 {
        cpu.try_step(&mut samples).expect("step");
    }
    assert_eq!(cpu.registers.a, 0x99);
    let m = cpu.bus.cartridge.mbc.as_ref().expect("MBC3");
    assert_eq!(m.sram[0x123], 0x99);
    assert!(m.has_save);
}

#[test]
fn plain_cartridge_has_no_external_ram() {
    let mut rom = vec![0u8; 0x8000];
    rom[0x147] = 0x00;
    let cart = Cartridge::with_controller(rom, &[], 0).ok().expect("valid header");
    assert!(cart.mbc.is_none());
    assert_eq!(cart.read(0xa000), 0xff);
}

#[test]
fn set_time_sets_the_clock_time() {
    let mut cart = Cartridge::from_rom(vec![0u8; 0x8000]).ok().expect("valid header");
    assert_eq!(cart.now, 0);
    cart.set_time(123_456);
    assert_eq!(cart.now, 123_456);
}
