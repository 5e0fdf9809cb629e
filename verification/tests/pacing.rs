use h8300h_emu::bus::MEMORY_START_ADDR;
use h8300h_emu::cpu::Cpu;
use h8300h_emu::error::{CpuError, Fault};
use h8300h_emu::pacer::{Pacer, CPUCLOCK, WINDOW_STATES};
use h8300h_emu::run::{Progress, RunState};

#[test]
fn a_window_fills_at_its_limit() {
    let mut pacer = Pacer::new();
    assert_eq!(pacer.record(13_999), None);
    assert_eq!(pacer.window, 13_999);
    assert_eq!(pacer.record(1), Some(700_000));
    assert_eq!(pacer.window, 0);
    assert_eq!(pacer.total, 14_000);
    assert_eq!(pacer.record(20_000), Some(1_000_000));
    assert_eq!(pacer.total, 34_000);
    assert_eq!(pacer.record(0), None);
    assert_eq!(pacer.window, 0);
}

#[test]
fn the_clock_runs_at_20_mhz() {
    assert_eq!(CPUCLOCK, 20_000_000);
    assert_eq!(WINDOW_STATES, 14_000);
    let mut pacer = Pacer::new();
    assert_eq!(pacer.record(20_000_000), Some(1_000_000_000));
}

#[test]
fn the_counts_stop_at_the_largest_number() {
    let mut pacer = Pacer::new();
    pacer.total = u64::MAX - 1;
    assert_eq!(pacer.record(5), None);
    assert_eq!(pacer.total, u64::MAX);
    assert_eq!(pacer.window, 5);
    assert_eq!(pacer.record(usize::MAX), Some(u64::MAX));
    assert_eq!(pacer.window, 0);
}

#[test]
fn only_what_is_left_of_a_window_is_waited() {
    assert_eq!(Pacer::remainder(700_000, 200_000), 500_000);
    assert_eq!(Pacer::remainder(700_000, 700_000), 0);
    assert_eq!(Pacer::remainder(700_000, 900_000), 0);
}

#[test]
fn a_run_ends_at_the_exit_address() {
    let mut cpu = Cpu::new();
    cpu.reset_stack();
    cpu.bus
        .load(MEMORY_START_ADDR, &[0x79, 0x00, 0x12, 0x34, 0x09, 0x00, 0x40, 0xfe])
        .unwrap();
    cpu.exit_addr = MEMORY_START_ADDR + 6;
    assert!(!cpu.is_halted());
    assert_eq!(cpu.run_window(), Ok(Progress { state: RunState::Halted, states: 6 }));
    assert!(cpu.is_halted());
    assert_eq!(cpu.read_rn_w(0).unwrap(), 0x2468);
}

#[test]
fn a_run_pauses_when_the_window_is_full() {
    let mut cpu = Cpu::new();
    cpu.bus.load(MEMORY_START_ADDR, &[0x57, 0x00, 0x40, 0xfe]).unwrap();
    assert_eq!(cpu.run_window(), Ok(Progress { state: RunState::Running, states: 14_002 }));
    assert_eq!(cpu.pc, MEMORY_START_ADDR + 2);
    assert_eq!(cpu.run_window(), Ok(Progress { state: RunState::Running, states: 14_000 }));
}

#[test]
fn a_run_stops_at_the_first_fault() {
    let mut cpu = Cpu::new();
    cpu.bus.load(MEMORY_START_ADDR, &[0x79, 0x00, 0x12, 0x34, 0xff, 0xff]).unwrap();
    assert_eq!(
        cpu.run_window(),
        Err(CpuError {
            kind: Fault::UnimplementedOpcode,
            pc: MEMORY_START_ADDR + 4,
            opcode: 0xffff,
        })
    );
    assert_eq!(cpu.read_rn_w(0).unwrap(), 0x1234);
}

#[test]
fn a_run_does_not_end_where_it_starts() {
    let mut cpu = Cpu::new();
    cpu.bus.load(MEMORY_START_ADDR, &[0x40, 0xfe]).unwrap();
    cpu.exit_addr = MEMORY_START_ADDR;
    assert_eq!(cpu.run_window(), Ok(Progress { state: RunState::Halted, states: 4 }));
}
