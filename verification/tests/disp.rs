use h8300h_emu::cpu::Cpu;

#[test]
fn test_write_disp16_ern_b() {
    let mut cpu = Cpu::new();
    cpu.er[0] = 0xfff000;
    cpu.write_disp16_ern_b(0, 0x0f10, 0xff).unwrap();
    assert_eq!(cpu.read_abs24_b(0xffff10).unwrap(), 0xff);

    cpu.er[1] = 0xfffe0a;
    cpu.write_disp16_ern_b(1, 0xfff6, 0xff).unwrap();
    assert_eq!(cpu.read_abs24_b(0xfffe00).unwrap(), 0xff);
}

#[test]
fn test_read_disp16_ern_b() {
    let mut cpu = Cpu::new();
    cpu.er[0] = 0xfff000;
    cpu.write_abs24_b(0xffff10, 0xff).unwrap();
    assert_eq!(cpu.read_disp16_ern_b(0, 0x0f10).unwrap(), 0xff);

    cpu.er[1] = 0xfffe0a;
    cpu.write_abs24_b(0xfffe00, 0xff).unwrap();
    assert_eq!(cpu.read_disp16_ern_b(1, 0xfff6).unwrap(), 0xff);
}

#[test]
fn test_write_disp16_ern_w() {
    let mut cpu = Cpu::new();
    cpu.er[0] = 0xfff000;
    cpu.write_disp16_ern_w(0, 0x0f10, 0x0fff).unwrap();
    assert_eq!(cpu.read_abs24_w(0xffff10).unwrap(), 0x0fff);

    cpu.er[1] = 0xfffe0a;
    cpu.write_disp16_ern_w(1, 0xfff6, 0x0fff).unwrap();
    assert_eq!(cpu.read_abs24_w(0xfffe00).unwrap(), 0x0fff);
}

#[test]
fn test_read_disp16_ern_w() {
    let mut cpu = Cpu::new();
    cpu.er[0] = 0xfff000;
    cpu.write_abs24_w(0xffff10, 0x0fff).unwrap();
    assert_eq!(cpu.read_disp16_ern_w(0, 0x0f10).unwrap(), 0x0fff);

    cpu.er[1] = 0xfffe0a;
    cpu.write_abs24_w(0xfffe00, 0x0fff).unwrap();
    assert_eq!(cpu.read_disp16_ern_w(1, 0xfff6).unwrap(), 0x0fff);
}

#[test]
fn test_write_disp16_ern_l() {
    let mut cpu = Cpu::new();
    cpu.er[0] = 0xfff000;
    cpu.write_disp16_ern_l(0, 0x0f10, 0x0f0fff0f).unwrap();
    assert_eq!(cpu.read_abs24_l(0xffff10).unwrap(), 0x0f0fff0f);

    cpu.er[1] = 0xfffe0a;
    cpu.write_disp16_ern_l(1, 0xfff6, 0x0f0fff0f).unwrap();
    assert_eq!(cpu.read_abs24_l(0xfffe00).unwrap(), 0x0f0fff0f);
}

#[test]
fn test_read_disp16_ern_l() {
    let mut cpu = Cpu::new();
    cpu.er[0] = 0xfff000;
    cpu.write_abs24_l(0xffff10, 0x0f0fff0f).unwrap();
    assert_eq!(cpu.read_disp16_ern_l(0, 0x0f10).unwrap(), 0x0f0fff0f);

    cpu.er[1] = 0xfffe0a;
    cpu.write_abs24_l(0xfffe00, 0x0f0fff0f).unwrap();
    assert_eq!(cpu.read_disp16_ern_l(1, 0xfff6).unwrap(), 0x0f0fff0f);
}

#[test]
fn test_write_disp24_ern_b() {
    let mut cpu = Cpu::new();
    cpu.er[0] = 0xfff000;
    cpu.write_disp24_ern_b(0, 0x000f10, 0xff).unwrap();
    assert_eq!(cpu.read_abs24_b(0xffff10).unwrap(), 0xff);

    cpu.er[1] = 0xfffe0a;
    cpu.write_disp24_ern_b(1, 0xfffff6, 0xff).unwrap();
    assert_eq!(cpu.read_abs24_b(0xfffe00).unwrap(), 0xff);
}

#[test]
fn test_read_disp24_ern_b() {
    let mut cpu = Cpu::new();
    cpu.er[0] = 0xfff000;
    cpu.write_abs24_b(0xffff10, 0xff).unwrap();
    assert_eq!(cpu.read_disp24_ern_b(0, 0x000f10).unwrap(), 0xff);

    cpu.er[1] = 0xfffe0a;
    cpu.write_abs24_b(0xfffe00, 0xff).unwrap();
    assert_eq!(cpu.read_disp24_ern_b(1, 0xfffff6).unwrap(), 0xff);
}

#[test]
fn test_write_disp24_ern_w() {
    let mut cpu = Cpu::new();
    cpu.er[0] = 0xfff000;
    cpu.write_disp24_ern_w(0, 0x000f10, 0x0fff).unwrap();
    assert_eq!(cpu.read_abs24_w(0xffff10).unwrap(), 0x0fff);

    cpu.er[1] = 0xfffe0a;
    cpu.write_disp24_ern_w(1, 0xfffff6, 0x0fff).unwrap();
    assert_eq!(cpu.read_abs24_w(0xfffe00).unwrap(), 0x0fff);
}

#[test]
fn test_read_disp24_ern_w() {
    let mut cpu = Cpu::new();
    cpu.er[0] = 0xfff000;
    cpu.write_abs24_w(0xffff10, 0x0fff).unwrap();
    assert_eq!(cpu.read_disp24_ern_w(0, 0x000f10).unwrap(), 0x0fff);

    cpu.er[1] = 0xfffe0a;
    cpu.write_abs24_w(0xfffe00, 0x0fff).unwrap();
    assert_eq!(cpu.read_disp24_ern_w(1, 0xfffff6).unwrap(), 0x0fff);
}

#[test]
fn test_write_disp24_ern_l() {
    let mut cpu = Cpu::new();
    cpu.er[0] = 0xfff000;
    cpu.write_disp24_ern_l(0, 0x000f10, 0x0f0fff0f)
        
        .unwrap();
    assert_eq!(cpu.read_abs24_l(0xffff10).unwrap(), 0x0f0fff0f);

    cpu.er[1] = 0xfffe0a;
    cpu.write_disp24_ern_l(1, 0xfffff6, 0x0f0fff0f)
        
        .unwrap();
    assert_eq!(cpu.read_abs24_l(0xfffe00).unwrap(), 0x0f0fff0f);
}

#[test]
fn test_read_disp24_ern_l() {
    let mut cpu = Cpu::new();
    cpu.er[0] = 0xfff000;
    cpu.write_abs24_l(0xffff10, 0x0f0fff0f).unwrap();
    assert_eq!(
        cpu.read_disp24_ern_l(0, 0x000f10).unwrap(),
        0x0f0fff0f
    );

    cpu.er[1] = 0xfffe0a;
    cpu.write_abs24_l(0xfffe00, 0x0f0fff0f).unwrap();
    assert_eq!(
        cpu.read_disp24_ern_l(1, 0xfffff6).unwrap(),
        0x0f0fff0f
    );
}
