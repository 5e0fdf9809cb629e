use h8300h_emu::bus::MEMORY_START_ADDR;
use h8300h_emu::cpu::{Cpu, CCR};
use h8300h_emu::error::Fault;

const H: u8 = 0x20;
const N: u8 = 0x08;
const Z: u8 = 0x04;
const V: u8 = 0x02;
const C: u8 = 0x01;

fn run_one(cpu: &mut Cpu, program: &[u8]) -> usize {
    cpu.bus.load(cpu.pc, program).unwrap();
    let opcode = cpu.fetch().unwrap();
    cpu.exec(opcode).unwrap()
}

#[test]
fn add_b_at_the_sign_boundary() {
    let mut cpu = Cpu::new();
    assert_eq!(cpu.add_b_proc(0x7f, 0x01), 0x80);
    assert_eq!(cpu.ccr, H | N | V);
    assert_eq!(cpu.read_ccr(CCR::N), 1);
    assert_eq!(cpu.read_ccr(CCR::V), 1);
    assert_eq!(cpu.read_ccr(CCR::C), 0);
    assert_eq!(cpu.read_ccr(CCR::H), 1);
    assert_eq!(cpu.read_ccr(CCR::Z), 0);
}

#[test]
fn add_b_immediate_and_register() {
    let mut cpu = Cpu::new();
    cpu.write_rn_b(8, 0x7f).unwrap();
    let states = run_one(&mut cpu, &[0x88, 0x01]);
    assert_eq!(states, 2);
    assert_eq!(cpu.read_rn_b(8).unwrap(), 0x80);
    assert_eq!(cpu.ccr, H | N | V);
    assert_eq!(cpu.pc, MEMORY_START_ADDR + 2);

    let mut cpu = Cpu::new();
    cpu.ccr = 0xd0;
    cpu.write_rn_b(1, 0xff).unwrap();
    cpu.write_rn_b(0xa, 0x01).unwrap();
    let states = run_one(&mut cpu, &[0x08, 0x1a]);
    assert_eq!(states, 2);
    assert_eq!(cpu.read_rn_b(0xa).unwrap(), 0x00);
    assert_eq!(cpu.read_rn_b(1).unwrap(), 0xff);
    assert_eq!(cpu.ccr, 0xd0 | H | Z | C);
}

#[test]
fn add_w_at_the_sign_boundary() {
    let mut cpu = Cpu::new();
    assert_eq!(cpu.add_w_proc(0x7fff, 0x0001), 0x8000);
    assert_eq!(cpu.ccr, H | N | V);

    let mut cpu = Cpu::new();
    assert_eq!(cpu.add_w_proc(0xffff, 0x0001), 0x0000);
    assert_eq!(cpu.ccr, H | Z | C);

    let mut cpu = Cpu::new();
    assert_eq!(cpu.add_w_proc(0x8000, 0x8000), 0x0000);
    assert_eq!(cpu.ccr, Z | V | C);

    let mut cpu = Cpu::new();
    cpu.ccr = 0xff;
    assert_eq!(cpu.add_w_proc(0x0001, 0x0002), 0x0003);
    assert_eq!(cpu.ccr, 0xd0);
}

#[test]
fn add_w_immediate_and_register() {
    let mut cpu = Cpu::new();
    cpu.write_rn_w(0, 0x7fff).unwrap();
    let states = run_one(&mut cpu, &[0x79, 0x10, 0x00, 0x01]);
    assert_eq!(states, 4);
    assert_eq!(cpu.read_rn_w(0).unwrap(), 0x8000);
    assert_eq!(cpu.ccr, H | N | V);
    assert_eq!(cpu.pc, MEMORY_START_ADDR + 4);

    let mut cpu = Cpu::new();
    cpu.write_rn_l(1, 0x1111_0100).unwrap();
    cpu.write_rn_w(0xa, 0x0023).unwrap();
    let states = run_one(&mut cpu, &[0x09, 0x1a]);
    assert_eq!(states, 2);
    assert_eq!(cpu.read_rn_w(0xa).unwrap(), 0x0123);
    assert_eq!(cpu.er[1], 0x1111_0100);
    assert_eq!(cpu.ccr, 0);
}

#[test]
fn add_w_takes_its_source_from_any_word_register() {
    let mut cpu = Cpu::new();
    cpu.er[0] = 0x0005_0000;
    cpu.er[1] = 0x0000_0001;
    assert_eq!(run_one(&mut cpu, &[0x09, 0x81]), 2);
    assert_eq!(cpu.er[1], 0x0000_0006);
    assert_eq!(cpu.er[0], 0x0005_0000);
    assert_eq!(cpu.ccr, 0);

    let mut cpu = Cpu::new();
    cpu.er[1] = 0x0040_0002;
    cpu.write_rn_w(0, 0x0001).unwrap();
    assert_eq!(run_one(&mut cpu, &[0x09, 0x90]), 2);
    assert_eq!(cpu.read_rn_w(0).unwrap(), 0x0041);
    assert_eq!(cpu.er[1], 0x0040_0002);

    let mut cpu = Cpu::new();
    cpu.er[7] = 0xffff_0001;
    assert_eq!(run_one(&mut cpu, &[0x09, 0xf7]), 2);
    assert_eq!(cpu.er[7], 0xffff_0000);
    assert_eq!(cpu.ccr, H | Z | C);
}

#[test]
fn cmp_w_takes_its_source_from_any_word_register() {
    let mut cpu = Cpu::new();
    cpu.er[0] = 0x0005_0000;
    cpu.er[1] = 0x0000_0005;
    assert_eq!(run_one(&mut cpu, &[0x1d, 0x81]), 2);
    assert_eq!(cpu.ccr, Z);
    assert_eq!(cpu.er[0], 0x0005_0000);
    assert_eq!(cpu.er[1], 0x0000_0005);

    let mut cpu = Cpu::new();
    cpu.er[0] = 0x0005_0000;
    cpu.er[1] = 0x0000_0005;
    assert_eq!(run_one(&mut cpu, &[0x1d, 0x01]), 2);
    assert_eq!(cpu.ccr, 0);

    let mut cpu = Cpu::new();
    cpu.er[2] = 0x0002_0001;
    assert_eq!(run_one(&mut cpu, &[0x1d, 0xa2]), 2);
    assert_eq!(cpu.ccr, H | N | C);
}

#[test]
fn add_l_register_and_immediate() {
    let mut cpu = Cpu::new();
    cpu.write_rn_l(0, 0x0000_0001).unwrap();
    cpu.write_rn_l(1, 0x0000_0002).unwrap();
    let states = run_one(&mut cpu, &[0x0a, 0x81]);
    assert_eq!(states, 2);
    assert_eq!(cpu.er[1], 3);
    assert_eq!(cpu.er[0], 1);
    assert_eq!(cpu.ccr, 0);

    let mut cpu = Cpu::new();
    cpu.write_rn_l(2, 0x7fff_ffff).unwrap();
    let states = run_one(&mut cpu, &[0x7a, 0x12, 0x00, 0x00, 0x00, 0x01]);
    assert_eq!(states, 6);
    assert_eq!(cpu.er[2], 0x8000_0000);
    assert_eq!(cpu.ccr, H | N | V);
    assert_eq!(cpu.pc, MEMORY_START_ADDR + 6);

    let mut cpu = Cpu::new();
    assert_eq!(cpu.add_l_proc(0xffff_ffff, 0x0000_0001), 0);
    assert_eq!(cpu.ccr, H | Z | C);
}

#[test]
fn add_l_refuses_a_field_that_names_no_extended_register() {
    let mut cpu = Cpu::new();
    cpu.bus.load(MEMORY_START_ADDR, &[0x0a, 0x0f]).unwrap();
    let opcode = cpu.fetch().unwrap();
    assert_eq!(cpu.exec(opcode), Err(Fault::InvalidRegisterField { field: 0xf }));
    assert_eq!(cpu.er, [0; 8]);
}

#[test]
fn cmp_w_of_equal_operands() {
    let mut cpu = Cpu::new();
    cpu.ccr = 0xff;
    assert_eq!(cpu.cmp_w_proc(0x1234, 0x1234), 0);
    assert_eq!(cpu.ccr, 0xd0 | Z);
    assert_eq!(cpu.read_ccr(CCR::Z), 1);
    assert_eq!(cpu.read_ccr(CCR::N), 0);
    assert_eq!(cpu.read_ccr(CCR::V), 0);
    assert_eq!(cpu.read_ccr(CCR::C), 0);
}

#[test]
fn cmp_w_borrows_where_the_source_is_larger() {
    let mut cpu = Cpu::new();
    assert_eq!(cpu.cmp_w_proc(0x0001, 0x0002), 0xffff);
    assert_eq!(cpu.ccr, H | N | C);

    let mut cpu = Cpu::new();
    assert_eq!(cpu.cmp_w_proc(0x8000, 0x0001), 0x7fff);
    assert_eq!(cpu.ccr, H | V);

    let mut cpu = Cpu::new();
    assert_eq!(cpu.cmp_w_proc(0x1000, 0x0fff), 0x0001);
    assert_eq!(cpu.ccr, H);

    let mut cpu = Cpu::new();
    assert_eq!(cpu.cmp_w_proc(0x1fff, 0x0fff), 0x1000);
    assert_eq!(cpu.ccr, 0);
}

#[test]
fn cmp_w_leaves_the_registers() {
    let mut cpu = Cpu::new();
    cpu.write_rn_w(0, 0x1234).unwrap();
    cpu.write_rn_w(1, 0x1234).unwrap();
    let states = run_one(&mut cpu, &[0x1d, 0x01]);
    assert_eq!(states, 2);
    assert_eq!(cpu.ccr, Z);
    assert_eq!(cpu.read_rn_w(0).unwrap(), 0x1234);
    assert_eq!(cpu.read_rn_w(1).unwrap(), 0x1234);

    let mut cpu = Cpu::new();
    cpu.write_rn_w(0xf, 0x0001).unwrap();
    let states = run_one(&mut cpu, &[0x79, 0x2f, 0x00, 0x02]);
    assert_eq!(states, 4);
    assert_eq!(cpu.ccr, H | N | C);
    assert_eq!(cpu.read_rn_w(0xf).unwrap(), 0x0001);
    assert_eq!(cpu.pc, MEMORY_START_ADDR + 4);
}

#[test]
fn shll_l_of_the_top_bit() {
    let mut cpu = Cpu::new();
    cpu.write_rn_l(0, 0x8000_0000).unwrap();
    let states = run_one(&mut cpu, &[0x10, 0x30]);
    assert_eq!(states, 2);
    assert_eq!(cpu.er[0], 0);
    assert_eq!(cpu.ccr, Z | C);
}

#[test]
fn shll_refuses_what_it_does_not_know() {
    let mut cpu = Cpu::new();
    cpu.bus.load(MEMORY_START_ADDR, &[0x10, 0x38, 0x10, 0x20]).unwrap();
    let opcode = cpu.fetch().unwrap();
    assert_eq!(cpu.exec(opcode), Err(Fault::InvalidRegisterField { field: 8 }));
    let opcode = cpu.fetch().unwrap();
    assert_eq!(cpu.exec(opcode), Err(Fault::UnimplementedOpcode));
    assert_eq!(cpu.ccr, 0);
}

#[test]
fn group_79_knows_three_operations() {
    let mut cpu = Cpu::new();
    cpu.bus.load(MEMORY_START_ADDR, &[0x79, 0x30, 0x00, 0x01]).unwrap();
    let opcode = cpu.fetch().unwrap();
    assert_eq!(cpu.exec(opcode), Err(Fault::UnimplementedOpcode));
    assert_eq!(cpu.pc, MEMORY_START_ADDR + 2);
    assert_eq!(cpu.add_w(0x0d00), Err(Fault::UnimplementedOpcode));
    assert_eq!(cpu.cmp_w(0x0900), Err(Fault::UnimplementedOpcode));
    assert_eq!(cpu.add_b(0x0900), Err(Fault::UnimplementedOpcode));
    assert_eq!(cpu.add_l(0x0900), Err(Fault::UnimplementedOpcode));
    assert_eq!(cpu.mov_w(0x0900), Err(Fault::UnimplementedOpcode));
    assert_eq!(cpu.mov_w(0x6b40), Err(Fault::UnimplementedOpcode));
    assert_eq!(cpu.jmp(0x5800), Err(Fault::UnimplementedOpcode));
    assert_eq!(cpu.jsr(0x5900), Err(Fault::UnimplementedOpcode));
    assert_eq!(cpu.bcc(0x5801), Err(Fault::UnimplementedOpcode));
}

#[test]
fn shal_tells_a_change_of_sign() {
    let mut cpu = Cpu::new();
    cpu.write_rn_b(0, 0x40).unwrap();
    assert_eq!(run_one(&mut cpu, &[0x10, 0x80]), 2);
    assert_eq!(cpu.read_rn_b(0).unwrap(), 0x80);
    assert_eq!(cpu.ccr, N | V);

    let mut cpu = Cpu::new();
    cpu.ccr = 0xf0;
    cpu.write_rn_b(0xf, 0xc0).unwrap();
    assert_eq!(run_one(&mut cpu, &[0x10, 0x8f]), 2);
    assert_eq!(cpu.read_rn_b(0xf).unwrap(), 0x80);
    assert_eq!(cpu.ccr, 0xf0 | N | C);

    let mut cpu = Cpu::new();
    cpu.write_rn_w(1, 0x4000).unwrap();
    assert_eq!(run_one(&mut cpu, &[0x10, 0x91]), 2);
    assert_eq!(cpu.read_rn_w(1).unwrap(), 0x8000);
    assert_eq!(cpu.ccr, N | V);

    let mut cpu = Cpu::new();
    cpu.write_rn_l(2, 0x8000_0000).unwrap();
    assert_eq!(run_one(&mut cpu, &[0x10, 0xb2]), 2);
    assert_eq!(cpu.er[2], 0);
    assert_eq!(cpu.ccr, Z | V | C);

    let mut cpu = Cpu::new();
    cpu.write_rn_l(2, 0x0000_0001).unwrap();
    assert_eq!(run_one(&mut cpu, &[0x10, 0xb2]), 2);
    assert_eq!(cpu.er[2], 2);
    assert_eq!(cpu.ccr, 0);

    let mut cpu = Cpu::new();
    cpu.bus.load(MEMORY_START_ADDR, &[0x10, 0xb8]).unwrap();
    let opcode = cpu.fetch().unwrap();
    assert_eq!(cpu.exec(opcode), Err(Fault::InvalidRegisterField { field: 8 }));
}

#[test]
fn sub_l_register_and_immediate() {
    let mut cpu = Cpu::new();
    cpu.er[0] = 1;
    cpu.er[1] = 3;
    assert_eq!(run_one(&mut cpu, &[0x1a, 0x81]), 2);
    assert_eq!(cpu.er[1], 2);
    assert_eq!(cpu.er[0], 1);
    assert_eq!(cpu.ccr, 0);

    let mut cpu = Cpu::new();
    cpu.er[2] = 0;
    assert_eq!(run_one(&mut cpu, &[0x7a, 0x32, 0x00, 0x00, 0x00, 0x01]), 6);
    assert_eq!(cpu.er[2], 0xffff_ffff);
    assert_eq!(cpu.ccr, H | N | C);
    assert_eq!(cpu.pc, MEMORY_START_ADDR + 6);

    let mut cpu = Cpu::new();
    assert_eq!(cpu.sub_l_proc(0x8000_0000, 1), 0x7fff_ffff);
    assert_eq!(cpu.ccr, H | V);
}

#[test]
fn cmp_l_leaves_the_registers() {
    let mut cpu = Cpu::new();
    cpu.ccr = 0xff;
    cpu.er[0] = 0x1234_5678;
    cpu.er[1] = 0x1234_5678;
    assert_eq!(run_one(&mut cpu, &[0x1f, 0x81]), 2);
    assert_eq!(cpu.ccr, 0xd0 | Z);
    assert_eq!(cpu.er[0], 0x1234_5678);
    assert_eq!(cpu.er[1], 0x1234_5678);

    let mut cpu = Cpu::new();
    cpu.er[3] = 1;
    assert_eq!(run_one(&mut cpu, &[0x7a, 0x23, 0x00, 0x00, 0x00, 0x02]), 6);
    assert_eq!(cpu.ccr, H | N | C);
    assert_eq!(cpu.er[3], 1);
}

#[test]
fn adds_and_subs_step_without_condition_codes() {
    for (second, size) in [(0x01u8, 1u32), (0x81, 2), (0x91, 4)] {
        let mut cpu = Cpu::new();
        cpu.ccr = 0xa5;
        cpu.er[1] = 0xffff_fffe;
        assert_eq!(run_one(&mut cpu, &[0x0b, second]), 2);
        assert_eq!(cpu.er[1], 0xffff_fffeu32.wrapping_add(size));
        assert_eq!(cpu.ccr, 0xa5);

        let mut cpu = Cpu::new();
        cpu.ccr = 0x5a;
        cpu.er[1] = 1;
        assert_eq!(run_one(&mut cpu, &[0x1b, second]), 2);
        assert_eq!(cpu.er[1], 1u32.wrapping_sub(size));
        assert_eq!(cpu.ccr, 0x5a);
    }
    let mut cpu = Cpu::new();
    assert_eq!(cpu.adds(0x0b51), Err(Fault::UnimplementedOpcode));
    assert_eq!(cpu.subs(0x1b71), Err(Fault::UnimplementedOpcode));
    assert_eq!(cpu.adds(0x0b08), Err(Fault::InvalidRegisterField { field: 8 }));
    assert_eq!(cpu.subs(0x1b9f), Err(Fault::InvalidRegisterField { field: 0xf }));
    assert_eq!(cpu.er, [0; 8]);
}
