use h8300h_emu::bus::{MEMORY_END_ADDR, MEMORY_START_ADDR};
use h8300h_emu::cpu::{Cpu, CCR};
use h8300h_emu::error::{CpuError, Fault};
use h8300h_emu::run::STACK_START_ADDR;

fn start(program: &[u8]) -> Cpu {
    let mut cpu = Cpu::new();
    cpu.reset_stack();
    cpu.bus.load(MEMORY_START_ADDR, program).unwrap();
    cpu
}

#[test]
fn the_stack_starts_below_the_end_of_memory() {
    let mut cpu = Cpu::new();
    cpu.reset_stack();
    assert_eq!(STACK_START_ADDR, MEMORY_END_ADDR - 0x0f);
    assert_eq!(cpu.er, [0, 0, 0, 0, 0, 0, 0, MEMORY_END_ADDR - 0x0f]);
}

#[test]
fn move_of_an_immediate_word() {
    let mut cpu = start(&[0x79, 0x00, 0xb6, 0xa5]);
    assert_eq!(cpu.step(), Ok(4));
    assert_eq!(cpu.read_rn_w(0).unwrap(), 0xb6a5);
    assert_eq!(cpu.read_ccr(CCR::N), 1);
    assert_eq!(cpu.read_ccr(CCR::Z), 0);
    assert_eq!(cpu.read_ccr(CCR::V), 0);
    assert_eq!(cpu.pc, MEMORY_START_ADDR + 4);
}

#[test]
fn addition_of_two_long_registers() {
    let mut cpu = start(&[0x0a, 0x81]);
    cpu.write_rn_l(0, 0x0000_0001).unwrap();
    cpu.write_rn_l(1, 0x0000_0002).unwrap();
    assert_eq!(cpu.step(), Ok(2));
    assert_eq!(cpu.read_rn_l(1).unwrap(), 3);
}

#[test]
fn call_by_a_short_displacement() {
    let mut cpu = start(&[0x55, 0x15]);
    let stack = cpu.er[7];
    assert_eq!(cpu.step(), Ok(8));
    assert_eq!(cpu.pc, MEMORY_START_ADDR + 2 + 0x15);
    assert_eq!(cpu.er[7], stack - 4);
    assert_eq!(cpu.read_abs24_l(stack - 4).unwrap(), MEMORY_START_ADDR + 2);
    assert_eq!(cpu.read_abs24_b(stack - 4).unwrap(), 0);
}

#[test]
fn bit_clear_in_memory() {
    let mut cpu = start(&[0x7f, 0x12, 0x72, 0x00]);
    cpu.write_abs24_b(0xffff12, 0xff).unwrap();
    assert_eq!(cpu.step(), Ok(8));
    assert_eq!(cpu.read_abs24_b(0xffff12).unwrap(), 0xfe);
    assert_eq!(cpu.pc, MEMORY_START_ADDR + 4);
}

#[test]
fn bit_and_from_memory() {
    let mut cpu = start(&[0x7e, 0x12, 0x76, 0x00]);
    cpu.write_abs24_b(0xffff12, 0x01).unwrap();
    cpu.write_ccr(CCR::C, 1);
    assert_eq!(cpu.step(), Ok(6));
    assert_eq!(cpu.read_ccr(CCR::C), 1);
    assert_eq!(cpu.ccr, 0x01);
}

#[test]
fn call_by_a_long_displacement_backwards() {
    let mut cpu = Cpu::new();
    cpu.reset_stack();
    cpu.pc = MEMORY_START_ADDR + 100;
    cpu.bus.load(MEMORY_START_ADDR + 100, &[0x5c, 0x00, 0xff, 0xf6]).unwrap();
    let stack = cpu.er[7];
    assert_eq!(cpu.step(), Ok(10));
    assert_eq!(cpu.pc, MEMORY_START_ADDR + 104 - 10);
    assert_eq!(cpu.read_abs24_l(stack - 4).unwrap(), MEMORY_START_ADDR + 104);
    assert_eq!(cpu.er[7], stack - 4);
}

#[test]
fn a_bit_instruction_on_the_8_bit_bus_waits() {
    let mut cpu = start(&[0x7f, 0x20, 0x72, 0x00, 0x7e, 0x20, 0x77, 0x80]);
    cpu.write_abs24_b(0xffff20, 0xff).unwrap();
    assert_eq!(cpu.step(), Ok(9));
    assert_eq!(cpu.read_abs24_b(0xffff20).unwrap(), 0xfe);
    assert_eq!(cpu.step(), Ok(7));
    assert_eq!(cpu.ccr, 0x01);
}

#[test]
fn trapa_only_takes_time() {
    let mut cpu = start(&[0x57, 0x00]);
    cpu.ccr = 0xa5;
    assert_eq!(cpu.step(), Ok(14));
    assert_eq!(cpu.pc, MEMORY_START_ADDR + 2);
    assert_eq!(cpu.ccr, 0xa5);
    assert_eq!(cpu.er, [0, 0, 0, 0, 0, 0, 0, STACK_START_ADDR]);
}

#[test]
fn an_unknown_opcode_is_reported_with_its_place() {
    let mut cpu = start(&[0x79, 0x00, 0x00, 0x01, 0x00, 0x00]);
    assert_eq!(cpu.step(), Ok(4));
    assert_eq!(
        cpu.step(),
        Err(CpuError {
            kind: Fault::UnimplementedOpcode,
            pc: MEMORY_START_ADDR + 4,
            opcode: 0x0000,
        })
    );
    assert_eq!(cpu.pc, MEMORY_START_ADDR + 6);
}

#[test]
fn a_fault_inside_an_instruction_is_reported_with_its_first_word() {
    let mut cpu = start(&[0x7d, 0x00, 0x00, 0x00]);
    assert_eq!(
        cpu.step(),
        Err(CpuError { kind: Fault::UnimplementedOpcode, pc: MEMORY_START_ADDR, opcode: 0x7d00 })
    );
    assert_eq!(cpu.pc, MEMORY_START_ADDR + 4);

    let mut cpu = start(&[0x69, 0x0f]);
    cpu.er[0] = 0x600000;
    assert_eq!(
        cpu.step(),
        Err(CpuError {
            kind: Fault::BusAccessError { addr: 0x600000 },
            pc: MEMORY_START_ADDR,
            opcode: 0x690f,
        })
    );

    let mut cpu = start(&[0x6d, 0xf0]);
    cpu.er[7] = 1;
    assert_eq!(
        cpu.step(),
        Err(CpuError { kind: Fault::ArithmeticOverflow, pc: MEMORY_START_ADDR, opcode: 0x6df0 })
    );
    assert_eq!(cpu.er[7], 1);
}

#[test]
fn a_fetch_outside_program_memory_fails() {
    let mut cpu = Cpu::new();
    cpu.pc = MEMORY_START_ADDR - 2;
    assert_eq!(cpu.fetch(), Err(Fault::FetchOutOfRange));
    assert_eq!(cpu.pc, MEMORY_START_ADDR - 2);
    cpu.pc = MEMORY_END_ADDR + 1;
    assert_eq!(
        cpu.step(),
        Err(CpuError { kind: Fault::FetchOutOfRange, pc: MEMORY_END_ADDR + 1, opcode: 0 })
    );
    cpu.pc = MEMORY_END_ADDR;
    cpu.bus.load(MEMORY_END_ADDR - 1, &[0x12, 0x34]).unwrap();
    assert_eq!(cpu.fetch(), Ok(0x1234));
    assert_eq!(cpu.pc, MEMORY_END_ADDR + 2);

    let mut cpu = start(&[0x79, 0x00]);
    cpu.pc = MEMORY_END_ADDR - 1;
    cpu.bus.load(MEMORY_END_ADDR - 1, &[0x79, 0x00]).unwrap();
    assert_eq!(
        cpu.step(),
        Err(CpuError { kind: Fault::FetchOutOfRange, pc: MEMORY_END_ADDR - 1, opcode: 0x7900 })
    );
}

#[test]
fn a_fetch_reads_the_even_address_below_an_odd_counter() {
    let mut cpu = start(&[0xab, 0xcd]);
    cpu.pc = MEMORY_START_ADDR + 1;
    assert_eq!(cpu.fetch(), Ok(0xabcd));
    assert_eq!(cpu.pc, MEMORY_START_ADDR + 3);
}

#[test]
fn two_fetched_words_make_a_long() {
    let mut cpu = start(&[0x12, 0x34, 0x56, 0x78]);
    assert_eq!(cpu.fetch_l(), Ok(0x1234_5678));
    assert_eq!(cpu.pc, MEMORY_START_ADDR + 4);
}

#[test]
fn every_fetched_word_is_counted() {
    let mut cpu = start(&[
        0x0d, 0x01, 0x79, 0x00, 0x00, 0x01, 0x7a, 0x02, 0x00, 0x00, 0x00, 0x01, 0x5c, 0x00, 0x00,
        0x10,
    ]);
    assert_eq!(cpu.fetched, 0);
    assert_eq!(cpu.step(), Ok(2));
    assert_eq!(cpu.fetched, 1);
    assert_eq!(cpu.step(), Ok(4));
    assert_eq!(cpu.fetched, 3);
    assert_eq!(cpu.step(), Ok(6));
    assert_eq!(cpu.fetched, 6);
    assert_eq!(cpu.step(), Ok(10));
    assert_eq!(cpu.fetched, 8);
    assert_eq!(cpu.pc, MEMORY_START_ADDR + 16 + 0x10);

    cpu.pc = 0;
    assert!(cpu.step().is_err());
    assert_eq!(cpu.fetched, 8);

    cpu.pc = MEMORY_START_ADDR;
    cpu.fetched = u64::MAX;
    assert_eq!(cpu.fetch(), Ok(0x0d01));
    assert_eq!(cpu.fetched, 0);
}

#[test]
fn an_instruction_keeps_the_program_counter_within_24_bits() {
    let mut cpu = start(&[0x59, 0x00, 0x40, 0xfc]);
    cpu.er[0] = 0xff40_0002;
    assert_eq!(cpu.step(), Ok(4));
    assert_eq!(cpu.pc, 0x40_0002);
    assert_eq!(cpu.step(), Ok(4));
    assert_eq!(cpu.pc, 0x40_0000);
    cpu.pc = 0x00ff_fffe;
    assert_eq!(cpu.exec(0x40fe), Ok(4));
    assert_eq!(cpu.pc, 0x00ff_fffc);
    cpu.pc = 0x00ff_fffe;
    assert_eq!(cpu.exec(0x4004), Ok(4));
    assert_eq!(cpu.pc, 0x0000_0002);
}
