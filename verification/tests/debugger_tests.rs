use xenogb::cpu::clock::CLOCK_SPEED;
use xenogb::cpu::cpu::LR35902CPU;
use xenogb::cpu::instructions::decode;
use xenogb::cpu::registers::CPURegisterId;
use xenogb::debugger::commands::{DebuggerCommand, DynAddr};
use xenogb::debugger::debugger::{Debugger, METRICS_INTERVAL_NANOS};
use xenogb::debugger::disas::{can_disas, disas, get_instr_size};
use xenogb::debugger::metrics::{CpuMetricFields, CpuMetrics, MetricsHandler};
use xenogb::debugger::state::{CpuState, DISAS_LEN};
use xenogb::mem::boot::BootRom;
use xenogb::mem::bus::Bus;
use xenogb::mem::cartridge::Cartridge;

fn cpu_with(program: &[u8]) -> LR35902CPU {
    let mut rom = vec![0u8; 0x8000];
    rom[0x100..0x100 + program.len()].copy_from_slice(program);
    let cart = Cartridge::from_rom(rom).ok().expect("valid header");
    let bus = Bus::new(cart, BootRom::NONE, &[]);
    LR35902CPU::new(bus, false, CLOCK_SPEED)
}

#[test]
fn decode_knows_plain_and_prefixed_opcodes() {
    let ld = decode(0x3e).expect("LD A, n");
    assert_eq!(ld.name, "LD");
    assert_eq!(ld.reg1, Some(CPURegisterId::A));
    assert_eq!(get_instr_size(&ld), 2);
    let swap = decode(0x137).expect("SWAP A");
    assert_eq!(swap.name, "SWAP");
    assert!(decode(0xd3).is_none());
    assert!(decode(0x200).is_none());
}

#[test]
fn disassembles_from_pc() {
    // LD A, 0x3A ; NOP ; JP 0x0150 ; SWAP A ; (0xD3 is no instruction)
    let cpu = cpu_with(&[0x3e, 0x3a, 0x00, 0xc3, 0x50, 0x01, 0xcb, 0x37, 0xd3]);
    assert!(can_disas(&cpu, 5));
    let out = disas(&cpu, 5);
    let addrs: Vec<u16> = out.iter().map(|g| g.addr).collect();
    assert_eq!(addrs, vec![0x100, 0x102, 0x103, 0x106, 0x108]);
    assert_eq!(out[0].text, "LD A, $0x3A");
    assert_eq!(out[1].text, "NOP ");
    assert_eq!(out[2].text, "JP $0x0150");
    assert_eq!(out[3].text, "SWAP A");
    assert_eq!(out[4].text, "??");
}

#[test]
fn disassembles_conditions_and_memory_operands() {
    // JP NZ, 0x1234 ; LD (HL), A ; LD HL, 0xC000
    let cpu = cpu_with(&[0xc2, 0x34, 0x12, 0x77, 0x21, 0x00, 0xc0]);
    let out = disas(&cpu, 3);
    assert_eq!(out[0].text, "JP NZ, $0x1234");
    assert_eq!(out[1].text, "LD [HL], A");
    assert_eq!(out[2].text, "LD HL, $0xC000");
}

#[test]
fn cpu_state_snapshot() {
    let cpu = cpu_with(&[0x00; 64]);
    assert!(can_disas(&cpu, DISAS_LEN));
    let metrics = MetricsHandler::<CpuMetrics>::new(METRICS_INTERVAL_NANOS, 0).export();
    let state = CpuState::new(&cpu, metrics);
    assert_eq!(state.registers.pc, 0x100);
    assert_eq!(state.disas.len(), DISAS_LEN);
    assert_eq!(state.disas[1].addr, 0x101);
    assert!(!state.halt);
}

#[test]
fn breakpoints_toggle() {
    let mut dbg = Debugger::new(true, 0);
    assert!(dbg.stepping);
    dbg.breakpoint(0x150);
    dbg.breakpoint(0x200);
    assert_eq!(dbg.breakpoints, vec![0x150, 0x200]);
    dbg.breakpoint(0x150);
    assert_eq!(dbg.breakpoints, vec![0x200]);
}

#[test]
fn stepping_runs_one_instruction_per_request() {
    let mut cpu = cpu_with(&[]);
    let mut dbg = Debugger::new(true, 0);
    assert!(!dbg.cpu_should_step(&cpu));
    dbg.handle_events(&mut cpu, Some(DebuggerCommand::STEP));
    assert!(dbg.cpu_should_step(&cpu));
    assert!(!dbg.cpu_should_step(&cpu));
    dbg.handle_events(&mut cpu, Some(DebuggerCommand::CONTINUE));
    assert!(dbg.cpu_should_step(&cpu));
    assert!(!dbg.stepping);
    assert!(dbg.cpu_should_step(&cpu));
}

#[test]
fn breakpoint_at_pc_stops_the_cpu() {
    let mut cpu = cpu_with(&[]);
    let mut dbg = Debugger::new(true, 0);
    dbg.handle_events(&mut cpu, Some(DebuggerCommand::CONTINUE));
    assert!(dbg.cpu_should_step(&cpu));
    let bp = DynAddr::new(None, Some(CPURegisterId::PC));
    dbg.handle_events(&mut cpu, Some(DebuggerCommand::BREAKPOINT(bp)));
    assert_eq!(dbg.breakpoints, vec![0x100]);
    assert!(!dbg.cpu_should_step(&cpu));
    assert!(dbg.stepping);
}

#[test]
fn disabled_debugger_always_steps() {
    let mut cpu = cpu_with(&[]);
    let mut dbg = Debugger::new(false, 0);
    dbg.breakpoint(0x100);
    assert!(dbg.cpu_should_step(&cpu));
    dbg.handle_events(&mut cpu, Some(DebuggerCommand::ENABLED(true)));
    assert!(dbg.enabled);
    assert!(dbg.cpu_metrics.enabled);
    assert!(!dbg.cpu_should_step(&cpu));
}

#[test]
fn cpu_clock_command_changes_frame_target() {
    let mut cpu = cpu_with(&[]);
    let mut dbg = Debugger::new(false, 0);
    dbg.handle_events(&mut cpu, Some(DebuggerCommand::CPU_CLOCK(CLOCK_SPEED * 2)));
    assert_eq!(cpu.clock.frame_target_nanos, 8_371_353);
}

#[test]
fn dyn_addr_resolves_registers() {
    let mut cpu = cpu_with(&[]);
    cpu.set_register(&CPURegisterId::HL, 0xc0de);
    assert_eq!(DynAddr::new(Some(0x1234), Some(CPURegisterId::HL)).resolve(&cpu), 0x1234);
    assert_eq!(DynAddr::new(None, Some(CPURegisterId::HL)).resolve(&cpu), 0xc0de);
    assert_eq!(DynAddr::new(None, Some(CPURegisterId::L)).resolve(&cpu), 0xde);
    assert_eq!(DynAddr::new(None, None).resolve(&cpu), 0);
}

#[test]
fn metrics_publish_after_interval() {
    let mut h = MetricsHandler::<CpuMetrics>::new(1000, 0);
    h.set_enabled(true);
    h.count(CpuMetricFields::INSTRUCTIONS, 3);
    h.count(CpuMetricFields::CYCLES, 12);
    h.mean_time(CpuMetricFields::TICK_TIME, 10);
    h.mean_time(CpuMetricFields::TICK_TIME, 20);
    h.update(1000);
    assert_eq!(h.export().metrics.instructions.count, 0);
    h.update(1001);
    let e = h.export();
    assert_eq!(e.at, 1001);
    assert_eq!(e.duration, 1000);
    assert_eq!(e.metrics.instructions.count, 3);
    assert_eq!(e.metrics.cycles.count, 12);
    assert_eq!(e.metrics.tick_time.total, 30);
    assert_eq!(e.metrics.tick_time.len, 2);
    assert_eq!(h.metrics.instructions.count, 0);
}

#[test]
fn disabled_metrics_do_not_count() {
    let mut h = MetricsHandler::<CpuMetrics>::new(1000, 0);
    h.count(CpuMetricFields::INSTRUCTIONS, 3);
    assert_eq!(h.metrics.instructions.count, 0);
}

#[test]
fn record_step_counts_while_enabled() {
    let mut dbg = Debugger::new(true, 0);
    dbg.ppu_metrics.set_enabled(true);
    dbg.record_step(3, 40, false);
    dbg.record_step(2, 20, true);
    assert_eq!(dbg.cpu_metrics.metrics.instructions.count, 2);
    assert_eq!(dbg.cpu_metrics.metrics.cycles.count, 5);
    assert_eq!(dbg.cpu_metrics.metrics.tick_time.total, 60);
    assert_eq!(dbg.cpu_metrics.metrics.tick_time.len, 2);
    assert_eq!(dbg.ppu_metrics.metrics.frame_rate.count, 1);
    let mut off = Debugger::new(false, 0);
    off.record_step(3, 40, true);
    assert_eq!(off.cpu_metrics.metrics.instructions.count, 0);
    assert_eq!(off.ppu_metrics.metrics.frame_rate.count, 0);
}

#[test]
fn record_step_stops_at_counter_limit() {
    let mut dbg = Debugger::new(true, 0);
    dbg.cpu_metrics.metrics.instructions.count = u32::MAX;
    dbg.cpu_metrics.metrics.cycles.count = u32::MAX - 1;
    dbg.record_step(4, 10, false);
    assert_eq!(dbg.cpu_metrics.metrics.instructions.count, u32::MAX);
    assert_eq!(dbg.cpu_metrics.metrics.cycles.count, u32::MAX - 1);
    assert_eq!(dbg.cpu_metrics.metrics.tick_time.total, 10);
}

#[test]
fn enabling_keeps_collected_measures() {
    let mut cpu = cpu_with(&[]);
    let mut dbg = Debugger::new(true, 5);
    dbg.cpu_metrics.count(CpuMetricFields::INSTRUCTIONS, 4);
    dbg.handle_events(&mut cpu, Some(DebuggerCommand::ENABLED(false)));
    assert!(!dbg.enabled);
    assert!(!dbg.cpu_metrics.enabled);
    assert!(!dbg.ppu_metrics.enabled);
    assert_eq!(dbg.cpu_metrics.metrics.instructions.count, 4);
    assert_eq!(dbg.cpu_metrics.last_update, 5);
    assert_eq!(dbg.ppu_metrics.last_update, 5);
    dbg.set_enabled(true);
    assert!(dbg.ppu_metrics.enabled);
    assert_eq!(dbg.cpu_metrics.metrics.instructions.count, 4);
}
