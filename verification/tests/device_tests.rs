use xenogb::cpu::clock::{CPUSpeed, Clock, CLOCK_SPEED, TICKS_PER_FRAME};
use xenogb::cpu::interrupts::{request_interrupt, Interrupts, TIMER, VBLANK};
use xenogb::io::joypad::{Joypad, ACTION, BUTTON_A, BUTTON_DOWN, BUTTON_START, PAD};
use xenogb::io::serial::{Serial, SerialConsole, TRANSFER_START};
use xenogb::io::timer::Timer;
use xenogb::mem::ram::RAM;

#[test]
fn joypad_reads_the_selected_group() {
    let mut pad = Joypad::new();
    assert_eq!(pad.read(), 0x0f);
    pad.press(BUTTON_A);
    pad.press(BUTTON_DOWN);
    // Select the action buttons (the PAD bit alone stays set).
    pad.write(PAD);
    assert_eq!(pad.read(), 0x0e);
    // Select the directions.
    pad.write(ACTION);
    assert_eq!(pad.read(), 0x07);
    pad.release(BUTTON_A);
    pad.write(PAD);
    assert_eq!(pad.read(), 0x0f);
}

#[test]
fn joypad_write_keeps_upper_nibble() {
    let mut pad = Joypad::new();
    pad.press(BUTTON_START);
    pad.write(0x2f);
    assert_eq!(pad.selector, 0x20);
    assert_eq!(pad.state, 0xff & !BUTTON_START);
}

#[test]
fn serial_transfer_hands_out_the_byte_once() {
    let mut s = Serial::default();
    s.write(0xff01, b'H');
    s.write(0xff02, TRANSFER_START);
    assert_eq!(s.read(0xff02), TRANSFER_START);
    assert_eq!(s.get_char(), b'H');
    assert_eq!(s.read(0xff02), 0x01);
    assert_eq!(s.get_char(), 0);
}

#[test]
fn timer_counts_on_falling_edges() {
    let mut t = Timer::new();
    let mut ints = Interrupts::new();
    // Enabled, clocked by divider bit 3: one increment every 4 M-cycles.
    t.write(0xff07, 0b101);
    assert_eq!(t.read(0xff07), 0xfd);
    for _ in 0..8 {
        t.tick(CPUSpeed::NORMAL, &mut ints);
    }
    assert_eq!(t.read(0xff05), 2);
    assert_eq!(t.div, 32);
    assert_eq!(t.read(0xff04), 0);
}

#[test]
fn timer_overflow_reloads_and_interrupts_a_cycle_later() {
    let mut t = Timer::new();
    let mut ints = Interrupts::new();
    t.write(0xff06, 0xab);
    t.write(0xff05, 0xff);
    t.write(0xff07, 0b101);
    for _ in 0..4 {
        t.tick(CPUSpeed::NORMAL, &mut ints);
    }
    assert_eq!(t.tima, 0);
    assert!(t.pending_overflow);
    assert_eq!(ints.flags & TIMER, 0);
    t.tick(CPUSpeed::NORMAL, &mut ints);
    assert_eq!(t.tima, 0xab);
    assert_eq!(ints.flags & TIMER, TIMER);
}

#[test]
fn div_write_resets_divider() {
    let mut t = Timer::new();
    let mut ints = Interrupts::new();
    for _ in 0..100 {
        t.tick(CPUSpeed::NORMAL, &mut ints);
    }
    assert_eq!(t.read(0xff04), 1);
    t.write(0xff04, 0x55);
    assert_eq!(t.div, 0);
}

#[test]
fn request_interrupt_sets_flag_bits() {
    let mut ints = Interrupts::new();
    request_interrupt(&mut ints, VBLANK);
    request_interrupt(&mut ints, TIMER);
    assert_eq!(ints.flags, VBLANK | TIMER);
    assert_eq!(ints.enable, 0);
}

#[test]
fn clock_frame_duration_and_ticks() {
    let mut c = Clock::new(CLOCK_SPEED);
    assert_eq!(c.frame_target_nanos, 16_742_706);
    assert!(!c.tick(1000));
    assert_eq!(c.clock_ticks, 1000);
    let mut done = false;
    for _ in 0..70 {
        done = c.tick(1000);
    }
    assert!(done);
    assert_eq!(c.clock_ticks, 0);
    assert!(TICKS_PER_FRAME == 70224);
    c.switch_speed(true);
    assert_eq!(c.speed_mode, CPUSpeed::DOUBLE);
    assert_eq!(c.frame_target_nanos, 8_371_353);
}

#[test]
fn unthrottled_clock_has_no_frame_target() {
    let c = Clock::new(u32::MAX);
    assert_eq!(c.frame_target_nanos, 0);
}

#[test]
fn ram_read_after_write() {
    let mut ram = RAM::new();
    ram.write(0xc123, 0x77);
    assert_eq!(ram.read(0xc123), 0x77);
    ram.write(0xff90, 0x12);
    assert_eq!(ram.read(0xff90), 0x12);
}

#[test]
fn ram_bank_switch_changes_upper_work_ram() {
    let mut ram = RAM::new();
    ram.write(0xd000, 0x11);
    ram.write(0xff70, 2);
    assert_eq!(ram.read(0xd000), 0x00);
    ram.write(0xd000, 0x22);
    ram.write(0xff70, 1);
    assert_eq!(ram.read(0xd000), 0x11);
    // Bank 0 of the switchable area reads as bank 1.
    ram.write(0xff70, 0);
    assert_eq!(ram.read(0xd000), 0x11);
    // The fixed bank is not switched.
    ram.write(0xc000, 0x33);
    ram.write(0xff70, 2);
    assert_eq!(ram.read(0xc000), 0x33);
}

#[test]
fn ram_svbk_reads_back_the_selected_bank() {
    let mut ram = RAM::new();
    assert_eq!(ram.read(0xff70), 1);
    ram.write(0xff70, 0x0b);
    assert_eq!(ram.read(0xff70), 3);
    ram.write(0xff70, 0xf8);
    assert_eq!(ram.read(0xff70), 1);
    ram.write(0xff70, 7);
    assert_eq!(ram.read(0xff70), 7);
}

#[test]
fn ram_new_is_zeroed() {
    let ram = RAM::new();
    for a in [0xc000u16, 0xcfff, 0xd000, 0xdfff, 0xff80, 0xfffe] {
        assert_eq!(ram.read(a), 0);
    }
}

#[test]
fn ram_ignores_other_addresses() {
    let mut ram = RAM::new();
    ram.write(0xc000, 0x42);
    for a in [0xe000u16, 0xff00, 0xffff, 0x8000] {
        ram.write(a, 0x99);
        assert_eq!(ram.read(a), 0xff);
    }
    assert_eq!(ram.read(0xc000), 0x42);
    assert_eq!(ram.read(0xff70), 1);
}

#[test]
fn ram_bytes_persist_across_unrelated_writes() {
    let mut ram = RAM::new();
    ram.write(0xd123, 0x5a);
    ram.write(0xff85, 0xa5);
    ram.write(0xc124, 0x01);
    ram.write(0xd124, 0x02);
    ram.write(0xff86, 0x03);
    assert_eq!(ram.read(0xd123), 0x5a);
    assert_eq!(ram.read(0xff85), 0xa5);
    // High RAM does not depend on the bank.
    ram.write(0xff70, 5);
    assert_eq!(ram.read(0xff85), 0xa5);
    assert_eq!(ram.read(0xd123), 0x00);
    ram.write(0xff70, 1);
    assert_eq!(ram.read(0xd123), 0x5a);
}

#[test]
fn serial_console_keeps_received_text() {
    let mut serial = Serial::default();
    let mut console = SerialConsole::new();
    // No transfer started: nothing is taken.
    assert_eq!(console.receive(&mut serial), 0);
    assert_eq!(console.received_bytes(), Vec::<u8>::new());
    for &b in b"OK" {
        serial.write(0xff01, b);
        serial.write(0xff02, TRANSFER_START);
        assert_eq!(console.receive(&mut serial), b);
        assert_eq!(serial.read(0xff02), 0x01);
    }
    assert_eq!(console.received_bytes(), b"OK".to_vec());
    assert_eq!(console.idx, 2);
}

#[test]
fn serial_console_ignores_zero_bytes() {
    let mut serial = Serial::default();
    let mut console = SerialConsole::new();
    serial.write(0xff01, 0);
    serial.write(0xff02, TRANSFER_START);
    assert_eq!(console.receive(&mut serial), 0);
    assert_eq!(console.idx, 0);
    assert_eq!(console.received_bytes(), Vec::<u8>::new());
}

#[test]
fn serial_console_index_wraps_after_256_bytes() {
    let mut serial = Serial::default();
    let mut console = SerialConsole::new();
    for i in 0..257u32 {
        serial.write(0xff01, (i % 250) as u8 + 1);
        serial.write(0xff02, TRANSFER_START);
        console.receive(&mut serial);
    }
    // 256 bytes filled the buffer; the 257th went to index 0.
    assert_eq!(console.idx, 1);
    assert_eq!(console.buf[0], 7);
    assert_eq!(console.buf[255], 6);
    assert_eq!(console.received_bytes(), vec![7u8]);
}
