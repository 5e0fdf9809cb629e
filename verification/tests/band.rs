use h8300h_emu::bus::MEMORY_START_ADDR;
use h8300h_emu::cpu::Cpu;

#[test]
fn test_band_rn() {
    let mut cpu = Cpu::new();
    cpu.ccr = 1;
    cpu.write_rn_b(0, 0x01).unwrap();
    cpu.bus.load(MEMORY_START_ADDR, &[0x76, 0x00]).unwrap();
    let opcode = cpu.fetch().unwrap();
    let state = cpu.exec(opcode).unwrap();
    assert_eq!(state, 2);
    assert_eq!(cpu.ccr, 1);

    // bit7
    let mut cpu = Cpu::new();
    cpu.ccr = 1;
    cpu.write_rn_b(0, 0x80).unwrap();
    cpu.bus.load(MEMORY_START_ADDR, &[0x76, 0x70]).unwrap();
    let opcode = cpu.fetch().unwrap();
    let state = cpu.exec(opcode).unwrap();
    assert_eq!(state, 2);
    assert_eq!(cpu.ccr, 1);

    // register 0xf
    let mut cpu = Cpu::new();
    cpu.ccr = 1;
    cpu.write_rn_b(0xf, 0x01).unwrap();
    cpu.bus.load(MEMORY_START_ADDR, &[0x76, 0x0f]).unwrap();
    let opcode = cpu.fetch().unwrap();
    let state = cpu.exec(opcode).unwrap();
    assert_eq!(state, 2);
    assert_eq!(cpu.ccr, 1);

    let mut cpu = Cpu::new();
    cpu.ccr = 1;
    cpu.write_rn_b(0, 0xfe).unwrap();
    cpu.bus.load(MEMORY_START_ADDR, &[0x76, 0x00]).unwrap();
    let opcode = cpu.fetch().unwrap();
    let state = cpu.exec(opcode).unwrap();
    assert_eq!(state, 2);
    assert_eq!(cpu.ccr, 0);

    let mut cpu = Cpu::new();
    cpu.ccr = 0;
    cpu.write_rn_b(0, 0x01).unwrap();
    cpu.bus.load(MEMORY_START_ADDR, &[0x76, 0x00]).unwrap();
    let opcode = cpu.fetch().unwrap();
    let state = cpu.exec(opcode).unwrap();
    assert_eq!(state, 2);
    assert_eq!(cpu.ccr, 0);
}

#[test]
fn test_band_ern() {
    let mut cpu = Cpu::new();
    cpu.ccr = 1;
    cpu.write_abs24_b(0xffcf20, 0x01).unwrap();
    cpu.write_rn_l(0, 0xffcf20).unwrap();
    cpu.bus.load(MEMORY_START_ADDR, &[0x7c, 0x00, 0x76, 0x00]).unwrap();
    let opcode = cpu.fetch().unwrap();
    let state = cpu.exec(opcode).unwrap();
    assert_eq!(state, 6);
    assert_eq!(cpu.ccr, 1);

    // bit 7
    let mut cpu = Cpu::new();
    cpu.ccr = 1;
    cpu.write_abs24_b(0xffcf20, 0x80).unwrap();
    cpu.write_rn_l(0, 0xffcf20).unwrap();
    cpu.bus.load(MEMORY_START_ADDR, &[0x7c, 0x00, 0x76, 0x70]).unwrap();
    let opcode = cpu.fetch().unwrap();
    let state = cpu.exec(opcode).unwrap();
    assert_eq!(state, 6);
    assert_eq!(cpu.ccr, 1);

    // register 7
    let mut cpu = Cpu::new();
    cpu.ccr = 1;
    cpu.write_abs24_b(0xffcf20, 0x01).unwrap();
    cpu.write_rn_l(7, 0xffcf20).unwrap();
    cpu.bus.load(MEMORY_START_ADDR, &[0x7c, 0x70, 0x76, 0x00]).unwrap();
    let opcode = cpu.fetch().unwrap();
    let state = cpu.exec(opcode).unwrap();
    assert_eq!(state, 6);
    assert_eq!(cpu.ccr, 1);

    let mut cpu = Cpu::new();
    cpu.ccr = 1;
    cpu.write_abs24_b(0xffcf20, 0xfe).unwrap();
    cpu.write_rn_l(0, 0xffcf20).unwrap();
    cpu.bus.load(MEMORY_START_ADDR, &[0x7c, 0x00, 0x76, 0x00]).unwrap();
    let opcode = cpu.fetch().unwrap();
    let state = cpu.exec(opcode).unwrap();
    assert_eq!(state, 6);
    assert_eq!(cpu.ccr, 0);

    let mut cpu = Cpu::new();
    cpu.ccr = 0;
    cpu.write_abs24_b(0xffcf20, 0x01).unwrap();
    cpu.write_rn_l(0, 0xffcf20).unwrap();
    cpu.bus.load(MEMORY_START_ADDR, &[0x7c, 0x00, 0x76, 0x00]).unwrap();
    let opcode = cpu.fetch().unwrap();
    let state = cpu.exec(opcode).unwrap();
    assert_eq!(state, 6);
    assert_eq!(cpu.ccr, 0);
}

#[test]
fn test_band_abs() {
    let mut cpu = Cpu::new();
    cpu.ccr = 1;
    cpu.write_abs24_b(0xffff12, 0x01).unwrap();
    cpu.bus.load(MEMORY_START_ADDR, &[0x7e, 0x12, 0x76, 0x00]).unwrap();
    let opcode = cpu.fetch().unwrap();
    let state = cpu.exec(opcode).unwrap();
    assert_eq!(state, 6);
    assert_eq!(cpu.ccr, 1);

    // bit 7
    let mut cpu = Cpu::new();
    cpu.ccr = 1;
    cpu.write_abs24_b(0xffff12, 0x80).unwrap();
    cpu.bus.load(MEMORY_START_ADDR, &[0x7e, 0x12, 0x76, 0x70]).unwrap();
    let opcode = cpu.fetch().unwrap();
    let state = cpu.exec(opcode).unwrap();
    assert_eq!(state, 6);
    assert_eq!(cpu.ccr, 1);

    let mut cpu = Cpu::new();
    cpu.ccr = 1;
    cpu.write_abs24_b(0xffff12, 0xfe).unwrap();
    cpu.bus.load(MEMORY_START_ADDR, &[0x7e, 0x12, 0x76, 0x00]).unwrap();
    let opcode = cpu.fetch().unwrap();
    let state = cpu.exec(opcode).unwrap();
    assert_eq!(state, 6);
    assert_eq!(cpu.ccr, 0);

    let mut cpu = Cpu::new();
    cpu.ccr = 0;
    cpu.write_abs24_b(0xffff12, 0x01).unwrap();
    cpu.bus.load(MEMORY_START_ADDR, &[0x7e, 0x12, 0x76, 0x00]).unwrap();
    let opcode = cpu.fetch().unwrap();
    let state = cpu.exec(opcode).unwrap();
    assert_eq!(state, 6);
    assert_eq!(cpu.ccr, 0);
}
