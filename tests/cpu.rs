use chipsand::cpu::{alu_result, AluOp, CpuError, CPU};
use chipsand::mmu::MMU;
use chipsand::registers::Registers;

fn cpu_with_program(program: &[u8]) -> CPU {
    let mut rom = vec![0u8; 0x8000];
    rom[0x100..0x100 + program.len()].copy_from_slice(program);
    let mut cpu = CPU::new(MMU::new(rom));
    cpu.reset();
    cpu
}

fn to_bcd(n: u8) -> u8 {
    (n / 10) * 16 + n % 10
}

#[test]
fn reset_sets_power_on_registers() {
    let mut cpu = cpu_with_program(&[]);
    assert_eq!(cpu.regs.get_reg_af(), 0x01B0);
    assert_eq!(cpu.regs.get_reg_bc(), 0x0013);
    assert_eq!(cpu.regs.get_reg_de(), 0x00D8);
    assert_eq!(cpu.regs.get_reg_hl(), 0x014D);
    assert_eq!(cpu.regs.sp, 0xFFFE);
    assert_eq!(cpu.regs.pc, 0x0100);
    assert_eq!(cpu.read_word(0xFF40), 0x91);
    cpu.regs.pc = 0x1234;
    cpu.reset();
    assert_eq!(cpu.regs.pc, 0x0100);
    assert_eq!(cpu.read_word(0xFF47), 0xFC);
}

#[test]
fn add_flags_match_the_table() {
    for a in 0..=255u8 {
        for b in [0u8, 1, 0x0F, 0x10, 0x7F, 0x80, 0xF0, 0xFF, a] {
            let mut regs = Registers::new();
            regs.a = a;
            let r = alu_result(AluOp::Add, regs, b);
            let sum = a as u16 + b as u16;
            assert_eq!(r.a, (sum & 0xFF) as u8);
            assert_eq!(r.z_flag, sum & 0xFF == 0);
            assert!(!r.n_flag);
            assert_eq!(r.h_flag, (a & 0xF) + (b & 0xF) > 0xF);
            assert_eq!(r.c_flag, sum > 0xFF);
        }
    }
}

#[test]
fn add_example_values() {
    let mut regs = Registers::new();
    regs.a = 0x3A;
    let r = alu_result(AluOp::Add, regs, 0xC6);
    assert_eq!(r.a, 0);
    assert!(r.z_flag && r.h_flag && r.c_flag && !r.n_flag);
}

#[test]
fn sub_and_sbc_borrow() {
    let mut regs = Registers::new();
    regs.a = 0x3E;
    let r = alu_result(AluOp::Sub, regs, 0x3E);
    assert_eq!(r.a, 0);
    assert!(r.z_flag && r.n_flag && !r.h_flag && !r.c_flag);
    regs.c_flag = true;
    let r = alu_result(AluOp::Sbc, regs, 0x3E);
    assert_eq!(r.a, 0xFF);
    assert!(r.n_flag && r.h_flag && r.c_flag && !r.z_flag);
    let r = alu_result(AluOp::Cp, regs, 0x40);
    assert_eq!(r.a, 0x3E);
    assert!(r.c_flag && !r.z_flag);
}

#[test]
fn daa_corrects_bcd_addition() {
    for p in 0..=99u8 {
        for q in 0..=99u8 {
            // LD A,p ; ADD A,q ; DAA
            let mut cpu = cpu_with_program(&[0x3E, to_bcd(p), 0xC6, to_bcd(q), 0x27]);
            for _ in 0..3 {
                cpu.cycle().unwrap();
            }
            let sum = p as u16 + q as u16;
            if sum < 100 {
                assert_eq!(cpu.regs.a, to_bcd(sum as u8));
                assert!(!cpu.regs.c_flag);
            } else {
                assert_eq!(cpu.regs.a, to_bcd((sum - 100) as u8));
                assert!(cpu.regs.c_flag);
            }
        }
    }
}

#[test]
fn illegal_opcode_is_an_error() {
    for op in [0xD3u8, 0xDB, 0xDD, 0xE3, 0xE4, 0xEB, 0xEC, 0xED, 0xF4, 0xFC, 0xFD] {
        let mut cpu = cpu_with_program(&[op]);
        assert_eq!(cpu.cycle(), Err(CpuError::IllegalOpcode(op)));
    }
}

#[test]
fn stop_is_not_supported() {
    let mut cpu = cpu_with_program(&[0x10]);
    assert_eq!(cpu.cycle(), Err(CpuError::UnsupportedOpcode(0x10)));
}

#[test]
fn loads_and_stores_through_memory() {
    // LD HL,0xC000 ; LD (HL),0x42 ; LD A,(HL) ; LD B,A ; LD (0xC010),A
    let mut cpu = cpu_with_program(&[0x21, 0x00, 0xC0, 0x36, 0x42, 0x7E, 0x47, 0xEA, 0x10, 0xC0]);
    for _ in 0..5 {
        cpu.cycle().unwrap();
    }
    assert_eq!(cpu.regs.a, 0x42);
    assert_eq!(cpu.regs.b, 0x42);
    assert_eq!(cpu.read_word(0xC000), 0x42);
    assert_eq!(cpu.read_word(0xC010), 0x42);
    assert_eq!(cpu.read_word(0xE010), 0x42);
}

#[test]
fn instruction_timing_in_clocks() {
    // NOP ; LD B,(HL) ; LD (0xC000),A ; PUSH BC ; POP BC ; CALL 0x0200
    let mut cpu = cpu_with_program(&[0x00, 0x46, 0xEA, 0x00, 0xC0, 0xC5, 0xC1, 0xCD, 0x00, 0x02]);
    let expected = [4u64, 8, 16, 16, 12, 24];
    for clocks in expected {
        let before = cpu.cycles;
        cpu.cycle().unwrap();
        assert_eq!(cpu.cycles - before, clocks);
    }
    assert_eq!(cpu.regs.pc, 0x0200);
}

#[test]
fn call_pushes_return_address_high_byte_first() {
    // CALL 0x0200 at 0x0100; return address 0x0103
    let mut cpu = cpu_with_program(&[0xCD, 0x00, 0x02]);
    cpu.cycle().unwrap();
    assert_eq!(cpu.regs.sp, 0xFFFC);
    assert_eq!(cpu.read_word(0xFFFD), 0x01);
    assert_eq!(cpu.read_word(0xFFFC), 0x03);
    assert_eq!(cpu.read_dw(0xFFFC), 0x0103);
}

#[test]
fn conditional_jump_costs_more_when_taken() {
    // XOR A (Z set) ; JR Z,+2 ; NOP ; NOP ; JR NZ,+0
    let mut cpu = cpu_with_program(&[0xAF, 0x28, 0x02, 0x00, 0x00, 0x20, 0x00]);
    cpu.cycle().unwrap();
    let before = cpu.cycles;
    cpu.cycle().unwrap();
    assert_eq!(cpu.cycles - before, 12);
    assert_eq!(cpu.regs.pc, 0x0105);
    let before = cpu.cycles;
    cpu.cycle().unwrap();
    assert_eq!(cpu.cycles - before, 8);
    assert_eq!(cpu.regs.pc, 0x0107);
}

#[test]
fn prefixed_operations() {
    // LD A,0x81 ; RLC A ; SWAP A ; BIT 7,A ; SET 0,B ; RES 0,B
    let mut cpu = cpu_with_program(&[0x3E, 0x81, 0xCB, 0x07, 0xCB, 0x37, 0xCB, 0x7F, 0xCB, 0xC0, 0xCB, 0x80]);
    cpu.cycle().unwrap();
    cpu.cycle().unwrap();
    assert_eq!(cpu.regs.a, 0x03);
    assert!(cpu.regs.c_flag);
    cpu.cycle().unwrap();
    assert_eq!(cpu.regs.a, 0x30);
    assert!(!cpu.regs.c_flag);
    cpu.cycle().unwrap();
    assert!(cpu.regs.z_flag && cpu.regs.h_flag);
    let b = cpu.regs.b;
    cpu.cycle().unwrap();
    assert_eq!(cpu.regs.b, b | 1);
    cpu.cycle().unwrap();
    assert_eq!(cpu.regs.b, b & 0xFE);
}

#[test]
fn rotate_a_clears_zero_flag() {
    // XOR A ; RLCA
    let mut cpu = cpu_with_program(&[0xAF, 0x07]);
    cpu.cycle().unwrap();
    assert!(cpu.regs.z_flag);
    cpu.cycle().unwrap();
    assert!(!cpu.regs.z_flag);
}

#[test]
fn interrupt_is_served_at_its_vector() {
    // EI ; NOP
    let mut cpu = cpu_with_program(&[0xFB, 0x00, 0x00]);
    cpu.cycle().unwrap();
    cpu.write_word(0xFFFF, 0x04);
    cpu.write_word(0xFF0F, 0x04);
    cpu.cycle().unwrap();
    // served the timer interrupt, then ran the NOP at 0x0050
    assert_eq!(cpu.regs.pc, 0x0051);
    assert_eq!(cpu.read_word(0xFF0F) & 0x1F, 0);
    assert_eq!(cpu.read_dw(cpu.regs.sp), 0x0101);
}

#[test]
fn joypad_interrupt_has_the_lowest_priority() {
    let mut cpu = cpu_with_program(&[0xFB, 0x00]);
    cpu.cycle().unwrap();
    cpu.write_word(0xFFFF, 0x1F);
    cpu.write_word(0xFF0F, 0x10);
    cpu.cycle().unwrap();
    assert_eq!(cpu.regs.pc, 0x0061);
}

#[test]
fn halt_waits_for_a_pending_interrupt() {
    let mut cpu = cpu_with_program(&[0x76, 0x00]);
    cpu.write_word(0xFFFF, 0);
    cpu.cycle().unwrap();
    assert_eq!(cpu.regs.pc, 0x0100);
    assert!(cpu.is_halted);
    cpu.write_word(0xFFFF, 0x01);
    cpu.write_word(0xFF0F, 0x01);
    cpu.cycle().unwrap();
    assert!(!cpu.is_halted);
    assert_eq!(cpu.regs.pc, 0x0101);
}

#[test]
fn add_sp_flags_come_from_low_byte() {
    // LD SP,0x00FF ; ADD SP,+1 ; LD HL,SP-1
    let mut cpu = cpu_with_program(&[0x31, 0xFF, 0x00, 0xE8, 0x01, 0xF8, 0xFF]);
    cpu.cycle().unwrap();
    cpu.cycle().unwrap();
    assert_eq!(cpu.regs.sp, 0x0100);
    assert!(cpu.regs.h_flag && cpu.regs.c_flag && !cpu.regs.z_flag);
    cpu.cycle().unwrap();
    assert_eq!(cpu.regs.get_reg_hl(), 0x00FF);
    assert!(!cpu.regs.h_flag && !cpu.regs.c_flag);
}
