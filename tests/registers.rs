use chipsand::registers::Registers;

fn mock_registers() -> Registers {
    Registers::new()
}

#[test]
fn test_get_reg_af() {
    let mut regs = mock_registers();
    regs.a = 0xF0;
    regs.z_flag = true;
    regs.n_flag = false;
    regs.h_flag = true;
    regs.c_flag = false;
    assert_eq!(0b1111000010100000, regs.get_reg_af());
}

#[test]
fn test_set_reg_af() {
    let mut regs = mock_registers();
    regs.set_reg_af(0b1111000010100000);
    assert_eq!(regs.a, 0xF0);
    assert_eq!(true, regs.z_flag);
    assert_eq!(false, regs.n_flag);
    assert_eq!(true, regs.h_flag);
    assert_eq!(false, regs.c_flag);
}

#[test]
fn af_low_nibble_reads_zero() {
    let mut regs = mock_registers();
    for v in [0x0000u16, 0x01B0, 0x12FF, 0xFFFF, 0xABCD, 0x000F] {
        regs.set_reg_af(v);
        assert_eq!(regs.get_reg_af(), v & 0xFFF0);
    }
}

#[test]
fn pairs_split_into_bytes() {
    let mut regs = mock_registers();
    regs.set_reg_bc(0x1234);
    regs.set_reg_de(0xBEEF);
    regs.set_reg_hl(0x00FF);
    assert_eq!((regs.b, regs.c), (0x12, 0x34));
    assert_eq!((regs.d, regs.e), (0xBE, 0xEF));
    assert_eq!((regs.h, regs.l), (0x00, 0xFF));
    assert_eq!(regs.get_reg_bc(), 0x1234);
    assert_eq!(regs.get_reg_de(), 0xBEEF);
    assert_eq!(regs.get_reg_hl(), 0x00FF);
}

#[test]
fn fresh_registers_start_at_cartridge_entry() {
    let regs = Registers::new();
    assert_eq!(regs.pc, 0x100);
    assert_eq!(regs.get_reg_af(), 0);
    assert_eq!(regs.get_reg_f(), 0);
}
