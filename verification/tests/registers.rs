use h8300h_emu::cpu::{Cpu, CCR};
use h8300h_emu::error::Fault;

#[test]
fn long_write_reads_back_through_word_and_byte_views() {
    for r in 0..8u8 {
        let mut cpu = Cpu::new();
        cpu.write_rn_l(r, 0x1234_abcd).unwrap();
        assert_eq!(cpu.read_rn_l(r).unwrap(), 0x1234_abcd);
        assert_eq!(cpu.read_rn_w(r).unwrap(), 0xabcd);
        assert_eq!(cpu.read_rn_w(r + 8).unwrap(), 0x1234);
        assert_eq!(cpu.read_rn_b(r).unwrap(), 0xab);
        assert_eq!(cpu.read_rn_b(r + 8).unwrap(), 0xcd);
    }
}

#[test]
fn byte_write_keeps_the_other_bytes() {
    let mut cpu = Cpu::new();
    cpu.write_rn_l(3, 0x1122_3344).unwrap();
    cpu.write_rn_b(3, 0xaa).unwrap();
    assert_eq!(cpu.er[3], 0x1122_aa44);
    cpu.write_rn_b(3 + 8, 0xbb).unwrap();
    assert_eq!(cpu.er[3], 0x1122_aabb);
    for r in [0usize, 1, 2, 4, 5, 6, 7] {
        assert_eq!(cpu.er[r], 0);
    }
}

#[test]
fn word_write_keeps_the_other_half() {
    let mut cpu = Cpu::new();
    cpu.write_rn_l(5, 0x1122_3344).unwrap();
    cpu.write_rn_w(5, 0xaaaa).unwrap();
    assert_eq!(cpu.er[5], 0x1122_aaaa);
    cpu.write_rn_w(5 + 8, 0xbbbb).unwrap();
    assert_eq!(cpu.er[5], 0xbbbb_aaaa);
    assert_eq!(cpu.er[4], 0);
    assert_eq!(cpu.er[6], 0);
}

#[test]
fn register_fields_out_of_range_are_refused() {
    let mut cpu = Cpu::new();
    assert_eq!(cpu.read_rn_l(8), Err(Fault::InvalidRegisterField { field: 8 }));
    assert_eq!(cpu.write_rn_l(0xf, 1), Err(Fault::InvalidRegisterField { field: 0xf }));
    assert_eq!(cpu.read_rn_w(16), Err(Fault::InvalidRegisterField { field: 16 }));
    assert_eq!(cpu.write_rn_w(16, 1), Err(Fault::InvalidRegisterField { field: 16 }));
    assert_eq!(cpu.read_rn_b(16), Err(Fault::InvalidRegisterField { field: 16 }));
    assert_eq!(cpu.write_rn_b(255, 1), Err(Fault::InvalidRegisterField { field: 255 }));
    assert_eq!(cpu.er, [0; 8]);
}

#[test]
fn nibbles_count_from_the_top() {
    assert_eq!(Cpu::get_nibble_opcode(0x1234, 1), Ok(1));
    assert_eq!(Cpu::get_nibble_opcode(0x1234, 2), Ok(2));
    assert_eq!(Cpu::get_nibble_opcode(0x1234, 3), Ok(3));
    assert_eq!(Cpu::get_nibble_opcode(0x1234, 4), Ok(4));
    assert_eq!(Cpu::get_nibble_opcode(0x1234, 0), Err(Fault::InvalidRegisterField { field: 0 }));
    assert_eq!(Cpu::get_nibble_opcode(0x1234, 5), Err(Fault::InvalidRegisterField { field: 5 }));
}

#[test]
fn condition_codes_sit_at_their_bits() {
    let bits = [
        (CCR::C, 0x01u8),
        (CCR::V, 0x02),
        (CCR::Z, 0x04),
        (CCR::N, 0x08),
        (CCR::U2, 0x10),
        (CCR::H, 0x20),
        (CCR::U, 0x40),
        (CCR::I, 0x80),
    ];
    for (code, mask) in bits {
        let mut cpu = Cpu::new();
        cpu.write_ccr(code, 1);
        assert_eq!(cpu.ccr, mask);
        assert_eq!(cpu.read_ccr(code), 1);
        cpu.ccr = 0xff;
        cpu.write_ccr(code, 0);
        assert_eq!(cpu.ccr, !mask);
        assert_eq!(cpu.read_ccr(code), 0);
    }
}

#[test]
fn a_new_processor_is_reset() {
    let cpu = Cpu::new();
    assert_eq!(cpu.pc, h8300h_emu::bus::MEMORY_START_ADDR);
    assert_eq!(cpu.ccr, 0);
    assert_eq!(cpu.er, [0; 8]);
    assert_eq!(cpu.exit_addr, 0);
    assert_eq!(cpu.fetched, 0);
    assert_eq!(cpu.read_abs24_l(0xffbf20).unwrap(), 0);
}
