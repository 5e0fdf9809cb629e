use h8300h_emu::bus::MEMORY_START_ADDR;
use h8300h_emu::cpu::Cpu;

#[test]
fn test_bst_rn() {
    let mut cpu = Cpu::new();
    cpu.ccr = 1;
    cpu.write_rn_b(0, 0xfe).unwrap();
    cpu.bus.load(MEMORY_START_ADDR, &[0x67, 0x00]).unwrap();
    let opcode = cpu.fetch().unwrap();
    let state = cpu.exec(opcode).unwrap();
    assert_eq!(state, 2);
    assert_eq!(cpu.ccr, 1);
    assert_eq!(cpu.read_rn_b(0).unwrap(), 0xff);

    // bit7
    let mut cpu = Cpu::new();
    cpu.ccr = 1;
    cpu.write_rn_b(0, 0x7f).unwrap();
    cpu.bus.load(MEMORY_START_ADDR, &[0x67, 0x70]).unwrap();
    let opcode = cpu.fetch().unwrap();
    let state = cpu.exec(opcode).unwrap();
    assert_eq!(state, 2);
    assert_eq!(cpu.ccr, 1);
    assert_eq!(cpu.read_rn_b(0).unwrap(), 0xff);

    // register 0xf
    let mut cpu = Cpu::new();
    cpu.ccr = 1;
    cpu.write_rn_b(0xf, 0xfe).unwrap();
    cpu.bus.load(MEMORY_START_ADDR, &[0x67, 0x0f]).unwrap();
    let opcode = cpu.fetch().unwrap();
    let state = cpu.exec(opcode).unwrap();
    assert_eq!(state, 2);
    assert_eq!(cpu.ccr, 1);
    assert_eq!(cpu.read_rn_b(0xf).unwrap(), 0xff);

    let mut cpu = Cpu::new();
    cpu.ccr = 0;
    cpu.write_rn_b(0, 0xfe).unwrap();
    cpu.bus.load(MEMORY_START_ADDR, &[0x67, 0x00]).unwrap();
    let opcode = cpu.fetch().unwrap();
    let state = cpu.exec(opcode).unwrap();
    assert_eq!(state, 2);
    assert_eq!(cpu.ccr, 0);
    assert_eq!(cpu.read_rn_b(0).unwrap(), 0xfe);
}

#[test]
fn test_bst_ern() {
    let mut cpu = Cpu::new();
    cpu.ccr = 1;
    cpu.write_abs24_b(0xffcf20, 0xfe).unwrap();
    cpu.write_rn_l(0, 0xffcf20).unwrap();
    cpu.bus.load(MEMORY_START_ADDR, &[0x7d, 0x00, 0x67, 0x00]).unwrap();
    let opcode = cpu.fetch().unwrap();
    let state = cpu.exec(opcode).unwrap();
    assert_eq!(state, 8);
    assert_eq!(cpu.ccr, 1);
    assert_eq!(cpu.read_ern_b(0).unwrap(), 0xff);

    // bit 7
    let mut cpu = Cpu::new();
    cpu.ccr = 1;
    cpu.write_abs24_b(0xffcf20, 0x7f).unwrap();
    cpu.write_rn_l(0, 0xffcf20).unwrap();
    cpu.bus.load(MEMORY_START_ADDR, &[0x7d, 0x00, 0x67, 0x70]).unwrap();
    let opcode = cpu.fetch().unwrap();
    let state = cpu.exec(opcode).unwrap();
    assert_eq!(state, 8);
    assert_eq!(cpu.ccr, 1);
    assert_eq!(cpu.read_ern_b(0).unwrap(), 0xff);

    // register 7
    let mut cpu = Cpu::new();
    cpu.ccr = 1;
    cpu.write_abs24_b(0xffcf20, 0xfe).unwrap();
    cpu.write_rn_l(7, 0xffcf20).unwrap();
    cpu.bus.load(MEMORY_START_ADDR, &[0x7d, 0x70, 0x67, 0x00]).unwrap();
    let opcode = cpu.fetch().unwrap();
    let state = cpu.exec(opcode).unwrap();
    assert_eq!(state, 8);
    assert_eq!(cpu.ccr, 1);
    assert_eq!(cpu.read_ern_b(7).unwrap(), 0xff);

    let mut cpu = Cpu::new();
    cpu.ccr = 0;
    cpu.write_abs24_b(0xffcf20, 0xfe).unwrap();
    cpu.write_rn_l(0, 0xffcf20).unwrap();
    cpu.bus.load(MEMORY_START_ADDR, &[0x7d, 0x00, 0x67, 0x00]).unwrap();
    let opcode = cpu.fetch().unwrap();
    let state = cpu.exec(opcode).unwrap();
    assert_eq!(state, 8);
    assert_eq!(cpu.ccr, 0);
    assert_eq!(cpu.read_ern_b(0).unwrap(), 0xfe);
}

#[test]
fn test_bst_abs() {
    let mut cpu = Cpu::new();
    cpu.ccr = 1;
    cpu.write_abs24_b(0xffff12, 0xfe).unwrap();
    cpu.bus.load(MEMORY_START_ADDR, &[0x7f, 0x12, 0x67, 0x00]).unwrap();
    let opcode = cpu.fetch().unwrap();
    let state = cpu.exec(opcode).unwrap();
    assert_eq!(state, 8);
    assert_eq!(cpu.ccr, 1);
    assert_eq!(cpu.read_abs24_b(0xffff12).unwrap(), 0xff);

    // bit 7
    let mut cpu = Cpu::new();
    cpu.ccr = 1;
    cpu.write_abs24_b(0xffff12, 0x7f).unwrap();
    cpu.bus.load(MEMORY_START_ADDR, &[0x7f, 0x12, 0x67, 0x70]).unwrap();
    let opcode = cpu.fetch().unwrap();
    let state = cpu.exec(opcode).unwrap();
    assert_eq!(state, 8);
    assert_eq!(cpu.ccr, 1);
    assert_eq!(cpu.read_abs24_b(0xffff12).unwrap(), 0xff);

    let mut cpu = Cpu::new();
    cpu.ccr = 0;
    cpu.write_abs24_b(0xffff12, 0xfe).unwrap();
    cpu.bus.load(MEMORY_START_ADDR, &[0x7f, 0x12, 0x67, 0x00]).unwrap();
    let opcode = cpu.fetch().unwrap();
    let state = cpu.exec(opcode).unwrap();
    assert_eq!(state, 8);
    assert_eq!(cpu.ccr, 0);
    assert_eq!(cpu.read_abs24_b(0xffff12).unwrap(), 0xfe);
}
