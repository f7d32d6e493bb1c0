use xenogb::cpu::interrupts::{Interrupts, VBLANK};
use xenogb::io::audio::apu::{APU, SAMPLE_RATE};
use xenogb::io::video::lcd::PPUMode;
use xenogb::io::video::ppu::PPU;

/// Ticks until a frame is done; returns the M-cycles that took.
fn ticks_to_frame(ppu: &mut PPU, ints: &mut Interrupts) -> u32 {
    let mut n = 0u32;
    loop {
        n += 1;
        if ppu.try_tick(ints).expect("the PPU can tick") {
            return n;
        }
        assert!(n < 100_000);
    }
}

#[test]
fn frames_come_every_70224_dots() {
    let mut ppu = PPU::new();
    let mut ints = Interrupts::new();
    ticks_to_frame(&mut ppu, &mut ints);
    let n = ticks_to_frame(&mut ppu, &mut ints);
    assert_eq!(n * 4, 70224);
    assert_eq!(ints.flags & VBLANK, VBLANK);
}

#[test]
fn lines_take_456_dots() {
    let mut ppu = PPU::new();
    let mut ints = Interrupts::new();
    for _ in 0..114 {
        ppu.try_tick(&mut ints).expect("the PPU can tick");
    }
    assert_eq!(ppu.lcd.ly, 1);
    assert_eq!(ppu.lcd.get_ppu_mode(), PPUMode::OAMScan);
    for _ in 0..20 {
        ppu.try_tick(&mut ints).expect("the PPU can tick");
    }
    assert_eq!(ppu.lcd.get_ppu_mode(), PPUMode::Draw);
}

#[test]
fn lcd_off_stops_the_ppu() {
    let mut ppu = PPU::new();
    let mut ints = Interrupts::new();
    ppu.lcd.write(0xff40, 0x11);
    for _ in 0..20000 {
        assert_eq!(ppu.try_tick(&mut ints), Some(false));
    }
    assert_eq!(ppu.lcd.ly, 0);
    assert_eq!(ints.flags, 0);
}

#[test]
fn vram_and_oam_round_trip() {
    let mut ppu = PPU::new();
    ppu.write(0x8010, 0xab);
    assert_eq!(ppu.read(0x8010), 0xab);
    ppu.write(0xfe04, 0x42);
    assert_eq!(ppu.read(0xfe04), 0x42);
}

#[test]
fn apu_makes_44100_samples_per_second() {
    let mut apu = APU::new();
    let mut samples = 0u32;
    // One second of M-cycles at normal speed.
    for _ in 0..1_048_576u32 {
        if apu.sample_due() {
            samples += 1;
        }
    }
    assert_eq!(samples, SAMPLE_RATE);
}

#[test]
fn apu_off_ignores_channel_writes() {
    let mut apu = APU::new();
    assert_eq!(apu.read(0xff26), 0x70);
    apu.write(0xff24, 0x77);
    assert_eq!(apu.read(0xff24), 0x00);
    apu.write(0xff26, 0x80);
    assert_eq!(apu.read(0xff26), 0xf0);
    apu.write(0xff24, 0x77);
    assert_eq!(apu.read(0xff24), 0x77);
}

#[test]
fn apu_trigger_enables_channel_one() {
    let mut apu = APU::new();
    apu.write(0xff26, 0x80);
    // Volume 15, period 0x700, then trigger.
    apu.write(0xff12, 0xf0);
    apu.write(0xff13, 0x00);
    apu.write(0xff14, 0x87);
    assert_eq!(apu.read(0xff26), 0xf1);
    let s = apu.digital_sample();
    assert!(s.ch1.is_some());
    assert!(s.ch3.is_none());
}
