use h8300h_emu::cpu::Cpu;

#[test]
fn test_write_dec_ern_b() {
    let mut cpu = Cpu::new();
    cpu.er[0] = 0xffff11;
    cpu.write_dec_ern_b(0, 0xff).unwrap();

    assert_eq!(cpu.read_abs24_b(0xffff10).unwrap(), 0xff);
    assert_eq!(cpu.er[0], 0xffff10)
}

#[test]
fn test_read_dec_ern_b() {
    let mut cpu = Cpu::new();
    cpu.er[0] = 0xffff11;
    cpu.write_abs24_b(0xffff10, 0xff).unwrap();
    assert_eq!(cpu.read_dec_ern_b(0).unwrap(), 0xff);
    assert_eq!(cpu.er[0], 0xffff10)
}

#[test]
fn test_write_dec_ern_w() {
    let mut cpu = Cpu::new();
    cpu.er[0] = 0xffff12;
    cpu.write_dec_ern_w(0, 0x0fff).unwrap();

    assert_eq!(cpu.read_abs24_w(0xffff10).unwrap(), 0x0fff);
    assert_eq!(cpu.er[0], 0xffff10)
}

#[test]
fn test_read_dec_ern_w() {
    let mut cpu = Cpu::new();
    cpu.er[0] = 0xffff12;
    cpu.write_abs24_w(0xffff10, 0x0fff).unwrap();
    assert_eq!(cpu.read_dec_ern_w(0).unwrap(), 0x0fff);
    assert_eq!(cpu.er[0], 0xffff10)
}

#[test]
fn test_write_dec_ern_l() {
    let mut cpu = Cpu::new();
    cpu.er[0] = 0xffff14;
    cpu.write_dec_ern_l(0, 0x0f0fff0f).unwrap();

    assert_eq!(cpu.read_abs24_l(0xffff10).unwrap(), 0x0f0fff0f);
    assert_eq!(cpu.er[0], 0xffff10)
}

#[test]
fn test_read_dec_ern_l() {
    let mut cpu = Cpu::new();
    cpu.er[0] = 0xffff14;
    cpu.write_abs24_l(0xffff10, 0x0f0fff0f).unwrap();
    assert_eq!(cpu.read_dec_ern_l(0).unwrap(), 0x0f0fff0f);
    assert_eq!(cpu.er[0], 0xffff10)
}
