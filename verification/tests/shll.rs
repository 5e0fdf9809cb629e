use h8300h_emu::bus::MEMORY_START_ADDR;
use h8300h_emu::cpu::Cpu;

#[test]
fn test_shll_b() {
    let mut cpu = Cpu::new();
    cpu.ccr = 0b00000111;

    cpu.bus.load(MEMORY_START_ADDR, &[0x10, 0x00]).unwrap();
    cpu.write_rn_b(0, 0b0101_0101).unwrap();
    let opcode = cpu.fetch().unwrap();
    let state = cpu.exec(opcode).unwrap();
    assert_eq!(state, 2);
    assert_eq!(cpu.ccr, 0b00001000);
    assert_eq!(cpu.read_rn_b(0).unwrap(), 0b1010_1010);

    let mut cpu = Cpu::new();
    cpu.ccr = 0b00000111;

    cpu.bus.load(MEMORY_START_ADDR, &[0x10, 0x0f]).unwrap();
    cpu.write_rn_b(0xf, 0b0101_0101).unwrap();
    let opcode = cpu.fetch().unwrap();
    let state = cpu.exec(opcode).unwrap();
    assert_eq!(state, 2);
    assert_eq!(cpu.ccr, 0b00001000);
    assert_eq!(cpu.read_rn_b(0xf).unwrap(), 0b1010_1010);

    // check CCR V
    let mut cpu = Cpu::new();
    cpu.ccr = 0b00001110;

    cpu.bus.load(MEMORY_START_ADDR, &[0x10, 0x00]).unwrap();
    cpu.write_rn_b(0, 0b1010_1010).unwrap();
    let opcode = cpu.fetch().unwrap();
    let state = cpu.exec(opcode).unwrap();
    assert_eq!(state, 2);
    assert_eq!(cpu.ccr, 0b00000001);
    assert_eq!(cpu.read_rn_b(0).unwrap(), 0b0101_0100);

    // check CCR C, Z
    let mut cpu = Cpu::new();
    cpu.ccr = 0b00001010;

    cpu.bus.load(MEMORY_START_ADDR, &[0x10, 0x00]).unwrap();
    cpu.write_rn_b(0, 0b1000_0000).unwrap();
    let opcode = cpu.fetch().unwrap();
    let state = cpu.exec(opcode).unwrap();
    assert_eq!(state, 2);
    assert_eq!(cpu.ccr, 0b00000101);
    assert_eq!(cpu.read_rn_b(0).unwrap(), 0);
}

#[test]
fn test_shll_w() {
    let mut cpu = Cpu::new();
    cpu.ccr = 0b00000111;

    cpu.bus.load(MEMORY_START_ADDR, &[0x10, 0x10]).unwrap();
    cpu.write_rn_w(0, 0b0101_0101_0101_0101).unwrap();
    let opcode = cpu.fetch().unwrap();
    let state = cpu.exec(opcode).unwrap();
    assert_eq!(state, 2);
    assert_eq!(cpu.ccr, 0b00001000);
    assert_eq!(cpu.read_rn_w(0).unwrap(), 0b1010_1010_1010_1010);

    let mut cpu = Cpu::new();
    cpu.ccr = 0b00000111;

    cpu.bus.load(MEMORY_START_ADDR, &[0x10, 0x1f]).unwrap();
    cpu.write_rn_w(0xf, 0b0101_0101_0101_0101).unwrap();
    let opcode = cpu.fetch().unwrap();
    let state = cpu.exec(opcode).unwrap();
    assert_eq!(state, 2);
    assert_eq!(cpu.ccr, 0b00001000);
    assert_eq!(cpu.read_rn_w(0xf).unwrap(), 0b1010_1010_1010_1010);

    // check CCR V
    let mut cpu = Cpu::new();
    cpu.ccr = 0b00001110;

    cpu.bus.load(MEMORY_START_ADDR, &[0x10, 0x10]).unwrap();
    cpu.write_rn_w(0, 0b1010_1010_1010_1010).unwrap();
    let opcode = cpu.fetch().unwrap();
    let state = cpu.exec(opcode).unwrap();
    assert_eq!(state, 2);
    assert_eq!(cpu.ccr, 0b00000001);
    assert_eq!(cpu.read_rn_w(0).unwrap(), 0b0101_0101_0101_0100);

    // check CCR C, Z
    let mut cpu = Cpu::new();
    cpu.ccr = 0b00001010;

    cpu.bus.load(MEMORY_START_ADDR, &[0x10, 0x10]).unwrap();
    cpu.write_rn_w(0, 0b1000_0000_0000_0000).unwrap();
    let opcode = cpu.fetch().unwrap();
    let state = cpu.exec(opcode).unwrap();
    assert_eq!(state, 2);
    assert_eq!(cpu.ccr, 0b00000101);
    assert_eq!(cpu.read_rn_w(0).unwrap(), 0);
}

#[test]
fn test_shll_l() {
    let mut cpu = Cpu::new();
    cpu.ccr = 0b00000111;

    cpu.bus.load(MEMORY_START_ADDR, &[0x10, 0x30]).unwrap();
    cpu.write_rn_l(0, 0b0101_0101_0101_0101_0101_0101_0101_0101)
        .unwrap();
    let opcode = cpu.fetch().unwrap();
    let state = cpu.exec(opcode).unwrap();
    assert_eq!(state, 2);
    assert_eq!(cpu.ccr, 0b00001000);
    assert_eq!(
        cpu.read_rn_l(0).unwrap(),
        0b1010_1010_1010_1010_1010_1010_1010_1010
    );

    let mut cpu = Cpu::new();
    cpu.ccr = 0b00000111;

    cpu.bus.load(MEMORY_START_ADDR, &[0x10, 0x37]).unwrap();
    cpu.write_rn_l(7, 0b0101_0101_0101_0101_0101_0101_0101_0101)
        .unwrap();
    let opcode = cpu.fetch().unwrap();
    let state = cpu.exec(opcode).unwrap();
    assert_eq!(state, 2);
    assert_eq!(cpu.ccr, 0b00001000);
    assert_eq!(
        cpu.read_rn_l(7).unwrap(),
        0b1010_1010_1010_1010_1010_1010_1010_1010
    );

    // check CCR V
    let mut cpu = Cpu::new();
    cpu.ccr = 0b00001110;

    cpu.bus.load(MEMORY_START_ADDR, &[0x10, 0x30]).unwrap();
    cpu.write_rn_l(0, 0b1010_1010_1010_1010_1010_1010_1010_1010)
        .unwrap();
    let opcode = cpu.fetch().unwrap();
    let state = cpu.exec(opcode).unwrap();
    assert_eq!(state, 2);
    assert_eq!(cpu.ccr, 0b00000001);
    assert_eq!(
        cpu.read_rn_l(0).unwrap(),
        0b0101_0101_0101_0101_0101_0101_0101_0100
    );

    // check CCR C, Z
    let mut cpu = Cpu::new();
    cpu.ccr = 0b00001010;

    cpu.bus.load(MEMORY_START_ADDR, &[0x10, 0x30]).unwrap();
    cpu.write_rn_l(0, 0b1000_0000_0000_0000_0000_0000_0000_0000)
        .unwrap();
    let opcode = cpu.fetch().unwrap();
    let state = cpu.exec(opcode).unwrap();
    assert_eq!(state, 2);
    assert_eq!(cpu.ccr, 0b00000101);
    assert_eq!(cpu.read_rn_l(0).unwrap(), 0);
}
