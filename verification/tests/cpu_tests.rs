use xenogb::cpu::clock::CLOCK_SPEED;
use xenogb::cpu::cpu::LR35902CPU;
use xenogb::cpu::registers::{CPURegisterId, FLAG_C, FLAG_H, FLAG_N, FLAG_Z};
use xenogb::io::audio::apu::DigitalSample;
use xenogb::mem::boot::BootRom;
use xenogb::mem::bus::Bus;
use xenogb::mem::cartridge::Cartridge;

/// A CPU without boot ROM over a 32 KiB ROM whose code at 0x100 is `program`.
fn cpu_with(program: &[u8]) -> LR35902CPU {
    let mut rom = vec![0u8; 0x8000];
    rom[0x100..0x100 + program.len()].copy_from_slice(program);
    let cart = Cartridge::from_rom(rom).ok().expect("valid header");
    let bus = Bus::new(cart, BootRom::NONE, &[]);
    LR35902CPU::new(bus, false, CLOCK_SPEED)
}

/// Runs `n` instructions and returns the M-cycles of each.
fn run(cpu: &mut LR35902CPU, n: usize) -> Vec<u8> {
    let mut samples: Vec<DigitalSample> = Vec::new();
    let mut cycles = Vec::new();
    for _ in 0..n {
        let r = cpu.try_step(&mut samples).expect("the step can run");
        cycles.push(r.cycles);
    }
    cycles
}

#[test]
fn initial_registers_without_boot_rom() {
    let cpu = cpu_with(&[]);
    assert_eq!(cpu.pc(), 0x100);
    assert_eq!(cpu.sp(), 0xfffe);
    assert_eq!(cpu.get_register(&CPURegisterId::A), 0x01);
    assert_eq!(cpu.registers.f, 0xb0);
    assert_eq!(cpu.get_register16(&CPURegisterId::HL), 0x014d);
}

#[test]
fn nop_takes_one_mcycle() {
    let mut cpu = cpu_with(&[0x00, 0x00]);
    let cycles = run(&mut cpu, 2);
    assert_eq!(cycles, vec![1, 1]);
    assert_eq!(cpu.pc(), 0x102);
}

#[test]
fn add_immediate_sets_all_carries() {
    // LD A, 0x3A ; ADD A, 0xC6
    let mut cpu = cpu_with(&[0x3e, 0x3a, 0xc6, 0xc6]);
    let cycles = run(&mut cpu, 2);
    assert_eq!(cycles, vec![2, 2]);
    assert_eq!(cpu.get_register(&CPURegisterId::A), 0x00);
    assert_eq!(cpu.registers.f, FLAG_Z | FLAG_H | FLAG_C);
}

#[test]
fn sub_of_itself_is_zero() {
    // LD A, 0x42 ; SUB A
    let mut cpu = cpu_with(&[0x3e, 0x42, 0x97]);
    run(&mut cpu, 2);
    assert_eq!(cpu.get_register(&CPURegisterId::A), 0);
    assert_eq!(cpu.registers.f, FLAG_Z | FLAG_N);
}

#[test]
fn inc_keeps_carry_and_sets_half_carry() {
    // LD B, 0x0F ; INC B (C was set at reset)
    let mut cpu = cpu_with(&[0x06, 0x0f, 0x04]);
    run(&mut cpu, 2);
    assert_eq!(cpu.get_register(&CPURegisterId::B), 0x10);
    assert_eq!(cpu.registers.f, FLAG_H | FLAG_C);
}

#[test]
fn push_then_pop_moves_a_pair() {
    // LD BC, 0x1234 ; PUSH BC ; POP DE
    let mut cpu = cpu_with(&[0x01, 0x34, 0x12, 0xc5, 0xd1]);
    let cycles = run(&mut cpu, 3);
    // LD rr, nn is counted as 2 M-cycles.
    assert_eq!(cycles, vec![2, 4, 3]);
    assert_eq!(cpu.get_register16(&CPURegisterId::DE), 0x1234);
    assert_eq!(cpu.sp(), 0xfffe);
    assert_eq!(cpu.read(0xfffd), 0x12);
    assert_eq!(cpu.read(0xfffc), 0x34);
}

#[test]
fn call_then_ret_comes_back_after_the_call() {
    // 0x100: CALL 0x0110 ; 0x110: RET
    let mut program = vec![0u8; 0x11];
    program[0] = 0xcd;
    program[1] = 0x10;
    program[2] = 0x01;
    program[0x10] = 0xc9;
    let mut cpu = cpu_with(&program);
    let cycles = run(&mut cpu, 1);
    assert_eq!(cycles, vec![6]);
    assert_eq!(cpu.pc(), 0x110);
    assert_eq!(cpu.sp(), 0xfffc);
    assert_eq!(cpu.read(0xfffd), 0x01);
    assert_eq!(cpu.read(0xfffc), 0x03);
    let cycles = run(&mut cpu, 1);
    assert_eq!(cycles, vec![4]);
    assert_eq!(cpu.pc(), 0x103);
    assert_eq!(cpu.sp(), 0xfffe);
}

#[test]
fn relative_jump_skips_bytes() {
    // JR +2 ; (two skipped bytes) ; LD A, 7
    let mut cpu = cpu_with(&[0x18, 0x02, 0x3e, 0x01, 0x3e, 0x07]);
    let cycles = run(&mut cpu, 2);
    assert_eq!(cycles, vec![3, 2]);
    assert_eq!(cpu.get_register(&CPURegisterId::A), 7);
    assert_eq!(cpu.pc(), 0x106);
}

#[test]
fn conditional_jump_not_taken_is_shorter() {
    // XOR A (sets Z) ; JR NZ, +2 ; LD A, 9
    let mut cpu = cpu_with(&[0xaf, 0x20, 0x02, 0x3e, 0x09]);
    let cycles = run(&mut cpu, 3);
    assert_eq!(cycles, vec![1, 2, 2]);
    assert_eq!(cpu.get_register(&CPURegisterId::A), 9);
}

#[test]
fn daa_corrects_bcd_addition() {
    // LD A, 0x15 ; ADD A, 0x27 ; DAA
    let mut cpu = cpu_with(&[0x3e, 0x15, 0xc6, 0x27, 0x27]);
    run(&mut cpu, 3);
    assert_eq!(cpu.get_register(&CPURegisterId::A), 0x42);
    assert_eq!(cpu.registers.f & FLAG_C, 0);
}

#[test]
fn swap_exchanges_nibbles() {
    // LD A, 0xF0 ; SWAP A
    let mut cpu = cpu_with(&[0x3e, 0xf0, 0xcb, 0x37]);
    let cycles = run(&mut cpu, 2);
    assert_eq!(cycles[1], 2);
    assert_eq!(cpu.get_register(&CPURegisterId::A), 0x0f);
    assert_eq!(cpu.registers.f, 0);
}

#[test]
fn rlca_rotates_into_carry() {
    // LD A, 0x85 ; RLCA
    let mut cpu = cpu_with(&[0x3e, 0x85, 0x07]);
    run(&mut cpu, 2);
    assert_eq!(cpu.get_register(&CPURegisterId::A), 0x0b);
    assert_eq!(cpu.registers.f, FLAG_C);
}

#[test]
fn store_and_load_through_hl() {
    // LD HL, 0xC000 ; LD (HL), 0x5A ; LD A, (HL)
    let mut cpu = cpu_with(&[0x21, 0x00, 0xc0, 0x36, 0x5a, 0x7e]);
    let cycles = run(&mut cpu, 3);
    assert_eq!(cycles, vec![2, 3, 2]);
    assert_eq!(cpu.get_register(&CPURegisterId::A), 0x5a);
    assert_eq!(cpu.read(0xc000), 0x5a);
    // The echo region mirrors work RAM.
    assert_eq!(cpu.read(0xe000), 0x5a);
}

#[test]
fn ldi_increments_hl() {
    // LD HL, 0xC010 ; LD A, 0x33 ; LD (HL+), A
    let mut cpu = cpu_with(&[0x21, 0x10, 0xc0, 0x3e, 0x33, 0x22]);
    run(&mut cpu, 3);
    assert_eq!(cpu.read(0xc010), 0x33);
    assert_eq!(cpu.get_register16(&CPURegisterId::HL), 0xc011);
}

#[test]
fn rst_jumps_to_its_vector() {
    // RST 0x28
    let mut cpu = cpu_with(&[0xef]);
    let cycles = run(&mut cpu, 1);
    assert_eq!(cycles, vec![4]);
    assert_eq!(cpu.pc(), 0x28);
    assert_eq!(cpu.sp(), 0xfffc);
}

#[test]
fn add_hl_sixteen_bit() {
    // LD HL, 0x0FFF ; LD BC, 0x0001 ; ADD HL, BC
    let mut cpu = cpu_with(&[0x21, 0xff, 0x0f, 0x01, 0x01, 0x00, 0x09]);
    let cycles = run(&mut cpu, 3);
    assert_eq!(cycles[2], 2);
    assert_eq!(cpu.get_register16(&CPURegisterId::HL), 0x1000);
    assert_eq!(cpu.registers.f & FLAG_H, FLAG_H);
    assert_eq!(cpu.registers.f & FLAG_N, 0);
}

#[test]
fn writes_to_rom_are_ignored() {
    // LD HL, 0x0150 ; LD (HL), 0x99
    let mut cpu = cpu_with(&[0x21, 0x50, 0x01, 0x36, 0x99]);
    run(&mut cpu, 2);
    assert_eq!(cpu.read(0x150), 0x00);
}

#[test]
fn halt_waits_one_mcycle_per_step() {
    // HALT with no interrupt enabled
    let mut cpu = cpu_with(&[0x76, 0x00]);
    run(&mut cpu, 1);
    assert!(cpu.halt);
    let cycles = run(&mut cpu, 2);
    assert_eq!(cycles, vec![1, 1]);
    assert!(cpu.halt);
}

#[test]
fn set_and_read_registers() {
    let mut cpu = cpu_with(&[]);
    cpu.set_register(&CPURegisterId::BC, 0xbeef);
    assert_eq!(cpu.get_register(&CPURegisterId::B), 0xbe);
    assert_eq!(cpu.get_register(&CPURegisterId::C), 0xef);
    cpu.set_register(&CPURegisterId::AF, 0x12ff);
    assert_eq!(cpu.get_register16(&CPURegisterId::AF), 0x12ff);
}

#[test]
fn add_then_sub_gives_a_back() {
    // LD A, 0x9C ; ADD A, 0x77 ; SUB 0x77
    let mut cpu = cpu_with(&[0x3e, 0x9c, 0xc6, 0x77, 0xd6, 0x77]);
    run(&mut cpu, 2);
    assert_eq!(cpu.get_register(&CPURegisterId::A), 0x13);
    assert_eq!(cpu.registers.f & FLAG_C, FLAG_C);
    run(&mut cpu, 1);
    assert_eq!(cpu.get_register(&CPURegisterId::A), 0x9c);
    assert_eq!(cpu.registers.f & FLAG_N, FLAG_N);
}

#[test]
fn rlc_then_rrc_gives_the_byte_back() {
    // LD B, 0xA5 ; RLC B ; RRC B
    let mut cpu = cpu_with(&[0x06, 0xa5, 0xcb, 0x00, 0xcb, 0x08]);
    run(&mut cpu, 2);
    assert_eq!(cpu.get_register(&CPURegisterId::B), 0x4b);
    assert_eq!(cpu.registers.f, FLAG_C);
    run(&mut cpu, 1);
    assert_eq!(cpu.get_register(&CPURegisterId::B), 0xa5);
}

#[test]
fn set_then_bit_reports_set_and_res_clears() {
    // LD C, 0 ; SET 3, C ; BIT 3, C ; RES 3, C ; BIT 3, C
    let mut cpu = cpu_with(&[0x0e, 0x00, 0xcb, 0xd9, 0xcb, 0x59, 0xcb, 0x99, 0xcb, 0x59]);
    run(&mut cpu, 3);
    assert_eq!(cpu.get_register(&CPURegisterId::C), 0x08);
    assert_eq!(cpu.registers.f & FLAG_Z, 0);
    run(&mut cpu, 2);
    assert_eq!(cpu.get_register(&CPURegisterId::C), 0x00);
    assert_eq!(cpu.registers.f & FLAG_Z, FLAG_Z);
    assert_eq!(cpu.registers.f & FLAG_H, FLAG_H);
}

#[test]
fn rst_then_ret_comes_back() {
    // 0x100: RST 0x38 ; the vector at 0x38 holds RET.
    let mut rom = vec![0u8; 0x8000];
    rom[0x38] = 0xc9;
    rom[0x100] = 0xff;
    let cart = Cartridge::from_rom(rom).ok().expect("valid header");
    let bus = Bus::new(cart, BootRom::NONE, &[]);
    let mut cpu = LR35902CPU::new(bus, false, CLOCK_SPEED);
    run(&mut cpu, 1);
    assert_eq!(cpu.pc(), 0x38);
    run(&mut cpu, 1);
    assert_eq!(cpu.pc(), 0x101);
    assert_eq!(cpu.sp(), 0xfffe);
}

#[test]
fn set_flags_leaves_unset_flags() {
    let mut cpu = cpu_with(&[]);
    // Z, N, H, C = set, clear, unchanged, clear
    cpu.set_flags(1, 0, -1, 0);
    assert_eq!(cpu.registers.f, FLAG_Z | FLAG_H);
    assert_eq!(cpu.get_flag(FLAG_Z), 1);
    assert_eq!(cpu.get_flag(FLAG_C), 0);
}

#[test]
fn interrupt_is_served_at_its_vector() {
    // EI ; NOP ; with the V-blank interrupt requested and enabled by hand.
    let mut cpu = cpu_with(&[0xfb, 0x00, 0x00]);
    cpu.write(0xffff, 0x01);
    cpu.write(0xff0f, 0x01);
    run(&mut cpu, 1);
    assert!(cpu.int_master);
    assert_eq!(cpu.pc(), 0x101);
    // After the NOP the interrupt is served: PC pushed, jump to 0x40.
    run(&mut cpu, 1);
    assert_eq!(cpu.pc(), 0x40);
    assert_eq!(cpu.sp(), 0xfffc);
    assert_eq!(cpu.read(0xfffd), 0x01);
    assert_eq!(cpu.read(0xfffc), 0x02);
    assert_eq!(cpu.read(0xff0f) & 0x01, 0);
    assert!(!cpu.int_master);
}

#[test]
fn set_flags_multiplies_wider_values_into_place() {
    let mut cpu = cpu_with(&[]);
    cpu.registers.f = 0;
    // N given 2: 0x40 * 2 lands on the Z bit.
    cpu.set_flags(-1, 2, -1, -1);
    assert_eq!(cpu.registers.f, 0x80);
    cpu.registers.f = 0;
    // C given 15 fills the whole upper nibble.
    cpu.set_flags(-1, -1, -1, 15);
    assert_eq!(cpu.registers.f, 0xf0);
    cpu.registers.f = FLAG_N;
    // H given 3 clears H, then adds 0x60.
    cpu.set_flags(-1, -1, 3, -1);
    assert_eq!(cpu.registers.f, FLAG_N | 0x60);
}
