use h8300h_emu::bus::MEMORY_START_ADDR;
use h8300h_emu::cpu::Cpu;

#[test]
fn test_bclr_rn_from_imm() {
    // bit 0
    let mut cpu = Cpu::new();
    cpu.pc = MEMORY_START_ADDR;
    cpu.write_rn_b(0, 0xff).unwrap();
    cpu.bus.load(MEMORY_START_ADDR, &[0x72, 0x00]).unwrap();
    let opcode = cpu.fetch().unwrap();
    let state = cpu.exec(opcode).unwrap();
    assert_eq!(state, 2);
    assert_eq!(cpu.read_rn_b(0).unwrap(), 0xfe);

    // bit 7
    let mut cpu = Cpu::new();
    cpu.pc = MEMORY_START_ADDR;
    cpu.write_rn_b(0, 0xff).unwrap();
    cpu.bus.load(MEMORY_START_ADDR, &[0x72, 0x70]).unwrap();
    let opcode = cpu.fetch().unwrap();
    let state = cpu.exec(opcode).unwrap();
    assert_eq!(state, 2);
    assert_eq!(cpu.read_rn_b(0).unwrap(), 0x7f);

    // register 0xf
    let mut cpu = Cpu::new();
    cpu.pc = MEMORY_START_ADDR;
    cpu.write_rn_b(0xf, 0xff).unwrap();
    cpu.bus.load(MEMORY_START_ADDR, &[0x72, 0x0f]).unwrap();
    let opcode = cpu.fetch().unwrap();
    let state = cpu.exec(opcode).unwrap();
    assert_eq!(state, 2);
    assert_eq!(cpu.read_rn_b(0xf).unwrap(), 0xfe);
}

#[test]
fn test_bclr_rn_from_rn() {
    // bit 0
    let mut cpu = Cpu::new();
    cpu.pc = MEMORY_START_ADDR;
    cpu.write_rn_b(0, 0).unwrap();
    cpu.write_rn_b(0xf, 0xff).unwrap();
    cpu.bus.load(MEMORY_START_ADDR, &[0x62, 0x0f]).unwrap();
    let opcode = cpu.fetch().unwrap();
    let state = cpu.exec(opcode).unwrap();
    assert_eq!(state, 2);
    assert_eq!(cpu.read_rn_b(0xf).unwrap(), 0xfe);

    // bit 7
    let mut cpu = Cpu::new();
    cpu.pc = MEMORY_START_ADDR;
    cpu.write_rn_b(0, 7).unwrap();
    cpu.write_rn_b(0xf, 0xff).unwrap();
    cpu.bus.load(MEMORY_START_ADDR, &[0x62, 0x0f]).unwrap();
    let opcode = cpu.fetch().unwrap();
    let state = cpu.exec(opcode).unwrap();
    assert_eq!(state, 2);
    assert_eq!(cpu.read_rn_b(0xf).unwrap(), 0x7f);

    // register 0xf
    let mut cpu = Cpu::new();
    cpu.pc = MEMORY_START_ADDR;
    cpu.write_rn_b(0xf, 0).unwrap();
    cpu.write_rn_b(0, 0xff).unwrap();
    cpu.bus.load(MEMORY_START_ADDR, &[0x62, 0xf0]).unwrap();
    let opcode = cpu.fetch().unwrap();
    let state = cpu.exec(opcode).unwrap();
    assert_eq!(state, 2);
    assert_eq!(cpu.read_rn_b(0).unwrap(), 0xfe);
}

#[test]
fn test_bclr_ern() {
    ////////
    // imm

    // bit 0
    let mut cpu = Cpu::new();
    cpu.pc = MEMORY_START_ADDR;
    cpu.write_abs24_b(0xffcf20, 0xff).unwrap();
    cpu.write_rn_l(0, 0xffcf20).unwrap();
    cpu.bus.load(MEMORY_START_ADDR, &[0x7d, 0x00, 0x72, 0x00]).unwrap();
    let opcode = cpu.fetch().unwrap();
    let state = cpu.exec(opcode).unwrap();
    assert_eq!(state, 8);
    assert_eq!(cpu.read_ern_b(0).unwrap(), 0xfe);

    // bit 7
    let mut cpu = Cpu::new();
    cpu.pc = MEMORY_START_ADDR;
    cpu.write_abs24_b(0xffcf20, 0xff).unwrap();
    cpu.write_rn_l(0, 0xffcf20).unwrap();
    cpu.bus.load(MEMORY_START_ADDR, &[0x7d, 0x00, 0x72, 0x70]).unwrap();
    let opcode = cpu.fetch().unwrap();
    let state = cpu.exec(opcode).unwrap();
    assert_eq!(state, 8);
    assert_eq!(cpu.read_ern_b(0).unwrap(), 0x7f);

    // register 7
    let mut cpu = Cpu::new();
    cpu.pc = MEMORY_START_ADDR;
    cpu.write_abs24_b(0xffcf20, 0xff).unwrap();
    cpu.write_rn_l(7, 0xffcf20).unwrap();
    cpu.bus.load(MEMORY_START_ADDR, &[0x7d, 0x70, 0x72, 0x70]).unwrap();
    let opcode = cpu.fetch().unwrap();
    let state = cpu.exec(opcode).unwrap();
    assert_eq!(state, 8);
    assert_eq!(cpu.read_ern_b(7).unwrap(), 0x7f);

    ////////
    // rn

    // bit 0
    let mut cpu = Cpu::new();
    cpu.pc = MEMORY_START_ADDR;
    cpu.write_abs24_b(0xffcf20, 0xff).unwrap();
    cpu.write_rn_l(0, 0xffcf20).unwrap();
    cpu.write_rn_b(0xf, 0).unwrap();
    cpu.bus.load(MEMORY_START_ADDR, &[0x7d, 0x00, 0x62, 0xf0]).unwrap();
    let opcode = cpu.fetch().unwrap();
    let state = cpu.exec(opcode).unwrap();
    assert_eq!(state, 8);
    assert_eq!(cpu.read_ern_b(0).unwrap(), 0xfe);

    // bit 7
    let mut cpu = Cpu::new();
    cpu.pc = MEMORY_START_ADDR;
    cpu.write_abs24_b(0xffcf20, 0xff).unwrap();
    cpu.write_rn_l(0, 0xffcf20).unwrap();
    cpu.write_rn_b(0xf, 7).unwrap();
    cpu.bus.load(MEMORY_START_ADDR, &[0x7d, 0x00, 0x62, 0xf0]).unwrap();
    let opcode = cpu.fetch().unwrap();
    let state = cpu.exec(opcode).unwrap();
    assert_eq!(state, 8);
    assert_eq!(cpu.read_ern_b(0).unwrap(), 0x7f);

    // register 7
    let mut cpu = Cpu::new();
    cpu.pc = MEMORY_START_ADDR;
    cpu.write_abs24_b(0xffcf20, 0xff).unwrap();
    cpu.write_rn_l(7, 0xffcf20).unwrap();
    cpu.write_rn_b(0, 7).unwrap();
    cpu.bus.load(MEMORY_START_ADDR, &[0x7d, 0x70, 0x62, 0x00]).unwrap();
    let opcode = cpu.fetch().unwrap();
    let state = cpu.exec(opcode).unwrap();
    assert_eq!(state, 8);
    assert_eq!(cpu.read_ern_b(7).unwrap(), 0x7f);
}

#[test]
fn test_bclr_abs() {
    ////////
    // imm

    // bit 0
    let mut cpu = Cpu::new();
    cpu.pc = MEMORY_START_ADDR;
    cpu.write_abs24_b(0xffff12, 0xff).unwrap();
    cpu.bus.load(MEMORY_START_ADDR, &[0x7f, 0x12, 0x72, 0x00]).unwrap();
    let opcode = cpu.fetch().unwrap();
    let state = cpu.exec(opcode).unwrap();
    assert_eq!(state, 8);
    assert_eq!(cpu.read_abs24_b(0xffff12).unwrap(), 0xfe);

    // bit 7
    let mut cpu = Cpu::new();
    cpu.pc = MEMORY_START_ADDR;
    cpu.write_abs24_b(0xffff12, 0xff).unwrap();
    cpu.bus.load(MEMORY_START_ADDR, &[0x7f, 0x12, 0x72, 0x70]).unwrap();
    let opcode = cpu.fetch().unwrap();
    let state = cpu.exec(opcode).unwrap();
    assert_eq!(state, 8);
    assert_eq!(cpu.read_abs24_b(0xffff12).unwrap(), 0x7f);

    ////////
    // rn

    // bit 0
    let mut cpu = Cpu::new();
    cpu.pc = MEMORY_START_ADDR;
    cpu.write_abs24_b(0xffff12, 0xff).unwrap();
    cpu.write_rn_b(0, 0).unwrap();
    cpu.bus.load(MEMORY_START_ADDR, &[0x7f, 0x12, 0x62, 0x00]).unwrap();
    let opcode = cpu.fetch().unwrap();
    let state = cpu.exec(opcode).unwrap();
    assert_eq!(state, 8);
    assert_eq!(cpu.read_abs24_b(0xffff12).unwrap(), 0xfe);

    // bit 7
    let mut cpu = Cpu::new();
    cpu.pc = MEMORY_START_ADDR;
    cpu.write_abs24_b(0xffff12, 0xff).unwrap();
    cpu.write_rn_b(0, 7).unwrap();
    cpu.bus.load(MEMORY_START_ADDR, &[0x7f, 0x12, 0x62, 0x00]).unwrap();
    let opcode = cpu.fetch().unwrap();
    let state = cpu.exec(opcode).unwrap();
    assert_eq!(state, 8);
    assert_eq!(cpu.read_abs24_b(0xffff12).unwrap(), 0x7f);

    // register 0xf
    let mut cpu = Cpu::new();
    cpu.pc = MEMORY_START_ADDR;
    cpu.write_abs24_b(0xffff12, 0xff).unwrap();
    cpu.write_rn_b(0xf, 7).unwrap();
    cpu.bus.load(MEMORY_START_ADDR, &[0x7f, 0x12, 0x62, 0xf0]).unwrap();
    let opcode = cpu.fetch().unwrap();
    let state = cpu.exec(opcode).unwrap();
    assert_eq!(state, 8);
    assert_eq!(cpu.read_abs24_b(0xffff12).unwrap(), 0x7f);
}
