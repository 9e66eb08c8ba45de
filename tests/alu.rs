use gbemu::instructions::ArithmeticOperand;
use gbemu::registers::{Register, Register16, Registers};

#[test]
fn test_alu_add_a_r8_overflow() {
    let mut registers = Registers { a: 0x01, b: 0x01, ..Registers::default() };
    registers.alu_add_a_r8(ArithmeticOperand::B);
    assert_eq!(registers.a, 0x02, "Register A's value is incorrect!");
    assert!(!registers.get_flag_zero(), "Zero flag should not be set!");
    assert!(!registers.get_flag_subtraction(), "Subtraction flag should not be set!");
    assert!(!registers.get_flag_half_carry(), "Half carry flag should not be set!");
    assert!(!registers.get_flag_carry(), "Carry flag should not be set!");

    let mut registers = Registers { a: 0xFF, b: 0x01, ..Registers::default() };
    registers.alu_add_a_r8(ArithmeticOperand::B);
    assert_eq!(registers.a, 0x00, "Register A's value is incorrect!");
    assert!(registers.get_flag_zero(), "Zero flag is not set!");
    assert!(!registers.get_flag_subtraction(), "Subtraction flag should not be set!");
    assert!(registers.get_flag_half_carry(), "Half carry flag is not set!");
    assert!(registers.get_flag_carry(), "Carry flag is not set!");

    registers = Registers { a: 0x0F, b: 0x01, ..Registers::default() };
    registers.alu_add_a_r8(ArithmeticOperand::B);
    assert_eq!(registers.a, 0x10, "Register A's value is incorrect!");
    assert!(!registers.get_flag_zero(), "Zero flag should not be set!");
    assert!(!registers.get_flag_subtraction(), "Subtraction flag should not be set!");
    assert!(registers.get_flag_half_carry(), "Half carry flag is not set!");
    assert!(!registers.get_flag_carry(), "Carry flag should not be set!");
}

#[test]
fn test_alu_adc_a_r8_overflow() {
    let mut registers = Registers { a: 0x00, b: 0x00, ..Registers::default() };
    registers.set_flag_carry(true);
    registers.alu_adc_a_r8(ArithmeticOperand::B);
    assert_eq!(registers.a, 0x01, "Register A's value is incorrect!");
    assert!(!registers.get_flag_zero(), "Zero flag should not be set!");
    assert!(!registers.get_flag_subtraction(), "Subtraction flag should not be set!");
    assert!(!registers.get_flag_half_carry(), "Half carry flag should not be set!");
    assert!(!registers.get_flag_carry(), "Carry flag should not be set!");

    let mut registers = Registers { a: 0xFF, b: 0x00, ..Registers::default() };
    registers.set_flag_carry(true);
    registers.alu_adc_a_r8(ArithmeticOperand::B);
    assert_eq!(registers.a, 0x00, "Register A's value is incorrect!");
    assert!(registers.get_flag_zero(), "Zero flag is not set!");
    assert!(!registers.get_flag_subtraction(), "Subtraction flag should not be set!");
    assert!(registers.get_flag_half_carry(), "Half carry flag is not set!");
    assert!(registers.get_flag_carry(), "Carry flag is not set!");

    registers = Registers { a: 0x0F, b: 0x00, ..Registers::default() };
    registers.set_flag_carry(true);
    registers.alu_adc_a_r8(ArithmeticOperand::B);
    assert_eq!(registers.a, 0x10, "Register A's value is incorrect!");
    assert!(!registers.get_flag_zero(), "Zero flag should not be set!");
    assert!(!registers.get_flag_subtraction(), "Subtraction flag should not be set!");
    assert!(registers.get_flag_half_carry(), "Half carry flag is not set!");
    assert!(!registers.get_flag_carry(), "Carry flag should not be set!");
}

#[test]
fn test_alu_sub_a_r8_overflow() {
    let mut registers = Registers { a: 0x01, b: 0x01, ..Registers::default() };
    registers.alu_sub_a_r8(ArithmeticOperand::B);
    assert_eq!(registers.a, 0x00, "Register A's value is incorrect!");
    assert!(registers.get_flag_zero(), "Zero flag is not set!");
    assert!(registers.get_flag_subtraction(), "Subtraction flag is not set!");
    assert!(!registers.get_flag_half_carry(), "Half carry flag should not be set!");
    assert!(!registers.get_flag_carry(), "Carry flag should not be set!");

    let mut registers = Registers { a: 0x00, b: 0x01, ..Registers::default() };
    registers.alu_sub_a_r8(ArithmeticOperand::B);
    assert_eq!(registers.a, 0xFF, "Register A's value is incorrect!");
    assert!(!registers.get_flag_zero(), "Zero flag should not be set!");
    assert!(registers.get_flag_subtraction(), "Subtraction flag is not set!");
    assert!(registers.get_flag_half_carry(), "Half carry flag is not set!");
    assert!(registers.get_flag_carry(), "Carry flag is not set!");

    registers = Registers { a: 0x10, b: 0x01, ..Registers::default() };
    registers.alu_sub_a_r8(ArithmeticOperand::B);
    assert_eq!(registers.a, 0x0F, "Register A's value is incorrect!");
    assert!(!registers.get_flag_zero(), "Zero flag should not be set!");
    assert!(registers.get_flag_subtraction(), "Subtraction flag is not set!");
    assert!(registers.get_flag_half_carry(), "Half carry flag is not set!");
    assert!(!registers.get_flag_carry(), "Carry flag should not be set!");
}

#[test]
fn test_alu_sbc_a_r8_overflow() {
    let mut registers = Registers { a: 0x01, b: 0x00, ..Registers::default() };
    registers.set_flag_carry(true);
    registers.alu_sbc_a_r8(ArithmeticOperand::B);
    assert_eq!(registers.a, 0x00, "Register A's value is incorrect!");
    assert!(registers.get_flag_zero(), "Zero flag is not set!");
    assert!(registers.get_flag_subtraction(), "Subtraction flag is not set!");
    assert!(!registers.get_flag_half_carry(), "Half carry flag should not be set!");
    assert!(!registers.get_flag_carry(), "Carry flag should not be set!");

    let mut registers = Registers { a: 0x00, b: 0x00, ..Registers::default() };
    registers.set_flag_carry(true);
    registers.alu_sbc_a_r8(ArithmeticOperand::B);
    assert_eq!(registers.a, 0xFF, "Register A's value is incorrect!");
    assert!(!registers.get_flag_zero(), "Zero flag should not be set!");
    assert!(registers.get_flag_subtraction(), "Subtraction flag is not set!");
    assert!(registers.get_flag_half_carry(), "Half carry flag is not set!");
    assert!(registers.get_flag_carry(), "Carry flag is not set!");

    registers = Registers { a: 0x10, b: 0x00, ..Registers::default() };
    registers.set_flag_carry(true);
    registers.alu_sbc_a_r8(ArithmeticOperand::B);
    assert_eq!(registers.a, 0x0F, "Register A's value is incorrect!");
    assert!(!registers.get_flag_zero(), "Zero flag should not be set!");
    assert!(registers.get_flag_subtraction(), "Subtraction flag is not set!");
    assert!(registers.get_flag_half_carry(), "Half carry flag is not set!");
    assert!(!registers.get_flag_carry(), "Carry flag should not be set!");
}

fn rotate_checks(use_register_family: bool) {
    let mut registers = Registers { a: 0xFF, ..Registers::default() };
    registers.set_flag_carry(true);
    registers.alu_rra();
    assert_eq!(registers.a, 0xFF, "Register A's values should still be 0xFF!");
    assert!(registers.get_flag_carry(), "The carry flag should still be set!");
    registers.alu_rla();
    assert_eq!(registers.a, 0xFF, "Register A's values should still be 0xFF!");
    assert!(registers.get_flag_carry(), "The carry flag should still be set!");

    registers = Registers { a: 0x00, ..Registers::default() };
    registers.set_flag_carry(true);
    registers.alu_rra();
    assert_eq!(registers.a, 0b10000000, "Register A's values is not correct!");
    assert!(!registers.get_flag_carry(), "The carry flag is still set!");
    registers.alu_rla();
    assert_eq!(registers.a, 0x00, "Register A's values is not correct!");
    assert!(registers.get_flag_carry(), "The carry flag should be set!");
    registers.alu_rla();
    assert_eq!(registers.a, 0b00000001, "Register A's values is not correct!");
    assert!(!registers.get_flag_carry(), "The carry flag is still set!");
    registers.alu_rra();
    assert_eq!(registers.a, 0x00, "Register A's values is not correct!");
    assert!(registers.get_flag_carry(), "The carry flag should be set!");

    registers = Registers { a: 0b00000010, ..Registers::default() };
    registers.alu_rrca();
    assert_eq!(registers.a, 0b00000001, "Register A's values is not correct!");
    assert!(!registers.get_flag_carry(), "The carry flag should not be set!");
    registers.alu_rrca();
    assert_eq!(registers.a, 0b10000000, "Register A's values is not correct!");
    assert!(registers.get_flag_carry(), "The carry flag should be set!");
    registers.alu_rlca();
    assert_eq!(registers.a, 0b00000001, "Register A's values is not correct!");
    assert!(registers.get_flag_carry(), "The carry flag should be set!");
    registers.alu_rlca();
    assert_eq!(registers.a, 0b00000010, "Register A's values is not correct!");
    assert!(!registers.get_flag_carry(), "The carry flag should not be set!");

    registers = Registers { a: 0b00000010, ..Registers::default() };
    if use_register_family {
        registers.alu_sra(Register::A);
    } else {
        registers.alu_sra_r8(ArithmeticOperand::A);
    }
    assert_eq!(registers.a, 0b00000001, "Register A's values is not correct!");
    assert!(!registers.get_flag_carry(), "The carry flag should not be set!");
    if use_register_family {
        registers.alu_sra(Register::A);
    } else {
        registers.alu_sra_r8(ArithmeticOperand::A);
    }
    assert_eq!(registers.a, 0x00, "Register A's values is not correct!");
    assert!(registers.get_flag_carry(), "The carry flag should be set!");

    registers = Registers { a: 0b01000000, ..Registers::default() };
    if use_register_family {
        registers.alu_sla(Register::A);
    } else {
        registers.alu_sla_r8(ArithmeticOperand::A);
    }
    assert_eq!(registers.a, 0b10000000, "Register A's values is not correct!");
    assert!(!registers.get_flag_carry(), "The carry flag should not be set!");
    if use_register_family {
        registers.alu_sla(Register::A);
    } else {
        registers.alu_sla_r8(ArithmeticOperand::A);
    }
    assert_eq!(registers.a, 0x00, "Register A's values is not correct!");
    assert!(registers.get_flag_carry(), "The carry flag should be set!");
}

#[test]
fn alu_test_rotate_a() {
    rotate_checks(false);
}

#[test]
fn arithmetic_test_rotate_a() {
    rotate_checks(true);
}

#[test]
fn test_alu_add_overflow() {
    let mut registers = Registers { a: 0x01, b: 0x01, ..Registers::default() };
    registers.alu_add(Register::B);
    assert_eq!(registers.a, 0x02, "Register A's value is incorrect!");
    assert!(!registers.get_flag_zero(), "Zero flag should not be set!");
    assert!(!registers.get_flag_subtraction(), "Subtraction flag should not be set!");
    assert!(!registers.get_flag_half_carry(), "Half carry flag should not be set!");
    assert!(!registers.get_flag_carry(), "Carry flag should not be set!");

    let mut registers = Registers { a: 0xFF, b: 0x01, ..Registers::default() };
    registers.alu_add(Register::B);
    assert_eq!(registers.a, 0x00, "Register A's value is incorrect!");
    assert!(registers.get_flag_zero(), "Zero flag is not set!");
    assert!(!registers.get_flag_subtraction(), "Subtraction flag should not be set!");
    assert!(registers.get_flag_half_carry(), "Half carry flag is not set!");
    assert!(registers.get_flag_carry(), "Carry flag is not set!");

    registers = Registers { a: 0x0F, b: 0x01, ..Registers::default() };
    registers.alu_add(Register::B);
    assert_eq!(registers.a, 0x10, "Register A's value is incorrect!");
    assert!(!registers.get_flag_zero(), "Zero flag should not be set!");
    assert!(!registers.get_flag_subtraction(), "Subtraction flag should not be set!");
    assert!(registers.get_flag_half_carry(), "Half carry flag is not set!");
    assert!(!registers.get_flag_carry(), "Carry flag should not be set!");
}

#[test]
fn test_alu_adc_overflow() {
    let mut registers = Registers { a: 0x00, b: 0x00, ..Registers::default() };
    registers.set_flag_carry(true);
    registers.alu_adc(Register::B);
    assert_eq!(registers.a, 0x01, "Register A's value is incorrect!");
    assert!(!registers.get_flag_zero(), "Zero flag should not be set!");
    assert!(!registers.get_flag_subtraction(), "Subtraction flag should not be set!");
    assert!(!registers.get_flag_half_carry(), "Half carry flag should not be set!");
    assert!(!registers.get_flag_carry(), "Carry flag should not be set!");

    let mut registers = Registers { a: 0xFF, b: 0x00, ..Registers::default() };
    registers.set_flag_carry(true);
    registers.alu_adc(Register::B);
    assert_eq!(registers.a, 0x00, "Register A's value is incorrect!");
    assert!(registers.get_flag_zero(), "Zero flag is not set!");
    assert!(!registers.get_flag_subtraction(), "Subtraction flag should not be set!");
    assert!(registers.get_flag_half_carry(), "Half carry flag is not set!");
    assert!(registers.get_flag_carry(), "Carry flag is not set!");

    registers = Registers { a: 0x0F, b: 0x00, ..Registers::default() };
    registers.set_flag_carry(true);
    registers.alu_adc(Register::B);
    assert_eq!(registers.a, 0x10, "Register A's value is incorrect!");
    assert!(!registers.get_flag_zero(), "Zero flag should not be set!");
    assert!(!registers.get_flag_subtraction(), "Subtraction flag should not be set!");
    assert!(registers.get_flag_half_carry(), "Half carry flag is not set!");
    assert!(!registers.get_flag_carry(), "Carry flag should not be set!");
}

#[test]
fn test_alu_sub_overflow() {
    let mut registers = Registers { a: 0x01, b: 0x01, ..Registers::default() };
    registers.alu_sub(Register::B);
    assert_eq!(registers.a, 0x00, "Register A's value is incorrect!");
    assert!(registers.get_flag_zero(), "Zero flag is not set!");
    assert!(registers.get_flag_subtraction(), "Subtraction flag is not set!");
    assert!(!registers.get_flag_half_carry(), "Half carry flag should not be set!");
    assert!(!registers.get_flag_carry(), "Carry flag should not be set!");

    let mut registers = Registers { a: 0x00, b: 0x01, ..Registers::default() };
    registers.alu_sub(Register::B);
    assert_eq!(registers.a, 0xFF, "Register A's value is incorrect!");
    assert!(!registers.get_flag_zero(), "Zero flag should not be set!");
    assert!(registers.get_flag_subtraction(), "Subtraction flag is not set!");
    assert!(registers.get_flag_half_carry(), "Half carry flag is not set!");
    assert!(registers.get_flag_carry(), "Carry flag is not set!");

    registers = Registers { a: 0x10, b: 0x01, ..Registers::default() };
    registers.alu_sub(Register::B);
    assert_eq!(registers.a, 0x0F, "Register A's value is incorrect!");
    assert!(!registers.get_flag_zero(), "Zero flag should not be set!");
    assert!(registers.get_flag_subtraction(), "Subtraction flag is not set!");
    assert!(registers.get_flag_half_carry(), "Half carry flag is not set!");
    assert!(!registers.get_flag_carry(), "Carry flag should not be set!");
}

#[test]
fn test_alu_sbc_overflow() {
    let mut registers = Registers { a: 0x01, b: 0x00, ..Registers::default() };
    registers.set_flag_carry(true);
    registers.alu_sbc(Register::B);
    assert_eq!(registers.a, 0x00, "Register A's value is incorrect!");
    assert!(registers.get_flag_zero(), "Zero flag is not set!");
    assert!(registers.get_flag_subtraction(), "Subtraction flag is not set!");
    assert!(!registers.get_flag_half_carry(), "Half carry flag should not be set!");
    assert!(!registers.get_flag_carry(), "Carry flag should not be set!");

    let mut registers = Registers { a: 0x00, b: 0x00, ..Registers::default() };
    registers.set_flag_carry(true);
    registers.alu_sbc(Register::B);
    assert_eq!(registers.a, 0xFF, "Register A's value is incorrect!");
    assert!(!registers.get_flag_zero(), "Zero flag should not be set!");
    assert!(registers.get_flag_subtraction(), "Subtraction flag is not set!");
    assert!(registers.get_flag_half_carry(), "Half carry flag is not set!");
    assert!(registers.get_flag_carry(), "Carry flag is not set!");

    registers = Registers { a: 0x10, b: 0x00, ..Registers::default() };
    registers.set_flag_carry(true);
    registers.alu_sbc(Register::B);
    assert_eq!(registers.a, 0x0F, "Register A's value is incorrect!");
    assert!(!registers.get_flag_zero(), "Zero flag should not be set!");
    assert!(registers.get_flag_subtraction(), "Subtraction flag is not set!");
    assert!(registers.get_flag_half_carry(), "Half carry flag is not set!");
    assert!(!registers.get_flag_carry(), "Carry flag should not be set!");
}

#[test]
fn test_alu_add_overflow_16() {
    let mut registers = Registers::default();
    registers.set_hl(0x0001);
    registers.set_bc(0x0001);
    registers.alu_add_16(Register16::BC);
    assert_eq!(registers.get_hl(), 0x0002, "Register A's value is incorrect!");
    assert!(!registers.get_flag_zero(), "Zero flag should not be set!");
    assert!(!registers.get_flag_subtraction(), "Subtraction flag should not be set!");
    assert!(!registers.get_flag_half_carry(), "Half carry flag should not be set!");
    assert!(!registers.get_flag_carry(), "Carry flag should not be set!");

    let mut registers = Registers::default();
    registers.set_hl(0xFFFF);
    registers.set_bc(0x0001);
    registers.alu_add_16(Register16::BC);
    assert_eq!(registers.get_hl(), 0x0000, "Register A's value is incorrect!");
    assert!(registers.get_flag_zero(), "Zero flag is not set!");
    assert!(!registers.get_flag_subtraction(), "Subtraction flag should not be set!");
    assert!(registers.get_flag_half_carry(), "Half carry flag is not set!");
    assert!(registers.get_flag_carry(), "Carry flag is not set!");

    registers = Registers::default();
    registers.set_hl(0x00FF);
    registers.set_bc(0x0001);
    registers.alu_add_16(Register16::BC);
    assert_eq!(registers.get_hl(), 0x0100, "Register A's value is incorrect!");
    assert!(!registers.get_flag_zero(), "Zero flag should not be set!");
    assert!(!registers.get_flag_subtraction(), "Subtraction flag should not be set!");
    assert!(registers.get_flag_half_carry(), "Half carry flag is not set!");
    assert!(!registers.get_flag_carry(), "Carry flag should not be set!");
}

#[test]
fn test_double_registers() {
    let mut regs = Registers::default();

    regs.set_double_register(Register16::AF, 1);
    assert_eq!(regs.a, 0, "Single register value not correct!");
    assert_eq!(regs.f, 0, "Single register value not correct!");
    assert_eq!(regs.get_double_register(Register16::AF), 0, "Read value is different than written value!");

    regs.set_double_register(Register16::BC, 1 << 1);
    assert_eq!(regs.b, 0, "Single register value not correct!");
    assert_eq!(regs.c, 1 << 1, "Single register value not correct!");
    assert_eq!(regs.get_double_register(Register16::BC), 2, "Read value is different than written value!");

    regs.set_double_register(Register16::DE, 1 << 14);
    assert_eq!(regs.d, 1 << 6, "Single register value not correct!");
    assert_eq!(regs.e, 0, "Single register value not correct!");
    assert_eq!(regs.get_double_register(Register16::DE), 1 << 14, "Read value is different than written value!");

    regs.set_double_register(Register16::HL, 1 << 15);
    assert_eq!(regs.h, 1 << 7, "Single register value not correct!");
    assert_eq!(regs.l, 0, "Single register value not correct!");
    assert_eq!(regs.get_double_register(Register16::HL), 1 << 15, "Read value is different than written value!");
}

#[test]
fn test_flags() {
    let mut regs = Registers { f: 1 << 7, ..Registers::default() };
    assert!(regs.get_flag_zero(), "Zero flag not correct!");
    assert!(!regs.get_flag_subtraction(), "Subtraction flag not correct!");
    assert!(!regs.get_flag_half_carry(), "Half carry flag not correct!");
    assert!(!regs.get_flag_carry(), "Carry flag not correct!");

    regs = Registers { f: 1 << 6, ..Registers::default() };
    assert!(!regs.get_flag_zero(), "Zero flag not correct!");
    assert!(regs.get_flag_subtraction(), "Subtraction flag not correct!");
    assert!(!regs.get_flag_half_carry(), "Half carry flag not correct!");
    assert!(!regs.get_flag_carry(), "Carry flag not correct!");

    regs = Registers { f: 1 << 5, ..Registers::default() };
    assert!(!regs.get_flag_zero(), "Zero flag not correct!");
    assert!(!regs.get_flag_subtraction(), "Subtraction flag not correct!");
    assert!(regs.get_flag_half_carry(), "Half carry flag not correct!");
    assert!(!regs.get_flag_carry(), "Carry flag not correct!");

    regs = Registers { f: 1 << 4, ..Registers::default() };
    assert!(!regs.get_flag_zero(), "Zero flag not correct!");
    assert!(!regs.get_flag_subtraction(), "Subtraction flag not correct!");
    assert!(!regs.get_flag_half_carry(), "Half carry flag not correct!");
    assert!(regs.get_flag_carry(), "Carry flag not correct!");
}

#[test]
fn daa_adjusts_after_addition_and_subtraction() {
    let mut r = Registers { a: 0x45, b: 0x38, ..Registers::default() };
    r.alu_add_a_r8(ArithmeticOperand::B);
    r.alu_daa();
    assert_eq!(r.a, 0x83);
    assert!(!r.get_flag_half_carry());
    assert!(!r.get_flag_carry());

    let mut r = Registers { a: 0x83, b: 0x38, ..Registers::default() };
    r.alu_sub_a_r8(ArithmeticOperand::B);
    r.alu_daa();
    assert_eq!(r.a, 0x45);

    let mut r = Registers { a: 0x99, b: 0x01, ..Registers::default() };
    r.alu_add_a_r8(ArithmeticOperand::B);
    r.alu_daa();
    assert_eq!(r.a, 0x00);
    assert!(r.get_flag_carry());
    assert!(r.get_flag_zero());
}

#[test]
fn flag_low_nibble_cannot_be_set() {
    let mut r = Registers::default();
    r.set_af(0x12FF);
    assert_eq!(r.a, 0x12);
    assert_eq!(r.f, 0xF0);
    r.set_register(Register::F, 0x0F);
    assert_eq!(r.f, 0x00);
}

#[test]
fn bit_operations_on_registers() {
    let mut r = Registers { c: 0b0001_0000, ..Registers::default() };
    r.alu_bit_b3_r8(4, ArithmeticOperand::C);
    assert!(!r.get_flag_zero());
    assert!(r.get_flag_half_carry());
    r.alu_bit_b3_r8(3, ArithmeticOperand::C);
    assert!(r.get_flag_zero());
    assert_eq!(r.alu_set_b3_r8(0, ArithmeticOperand::C), 0b0001_0001);
    assert_eq!(r.alu_res_b3_r8(4, ArithmeticOperand::C), 0b0000_0001);
    assert_eq!(r.c, 0b0000_0001);
    assert_eq!(r.alu_swap_r8(ArithmeticOperand::C), 0x10);
    r.z = 0x80;
    assert_eq!(r.alu_rlc_r8(ArithmeticOperand::IND_HL), 0x01);
    assert_eq!(r.z, 0x80);
    assert!(r.get_flag_carry());
}

#[test]
fn register_family_operations() {
    let mut r = Registers { a: 0x3C, d: 0x0F, e: 0x81, ..Registers::default() };
    r.alu_and(Register::D);
    assert_eq!(r.a, 0x0C);
    assert!(r.get_flag_half_carry());
    r.alu_or(Register::E);
    assert_eq!(r.a, 0x8D);
    r.alu_xor(Register::A);
    assert_eq!(r.a, 0x00);
    assert!(r.get_flag_zero());
    r.alu_cp(Register::D);
    assert!(r.get_flag_carry());
    assert_eq!(r.a, 0x00);
    r.alu_inc(Register::D);
    assert_eq!(r.d, 0x10);
    assert!(r.get_flag_half_carry());
    r.alu_dec(Register::W);
    assert_eq!(r.w, 0xFF);
    r.alu_swap(Register::E);
    assert_eq!(r.e, 0x18);
    r.alu_rlc(Register::E);
    assert_eq!(r.e, 0x30);
    r.alu_rrc(Register::E);
    assert_eq!(r.e, 0x18);
    r.set_flag_carry(true);
    r.alu_rl(Register::E);
    assert_eq!(r.e, 0x31);
    r.alu_rr(Register::E);
    assert_eq!(r.e, 0x18);
    assert!(r.get_flag_carry());
    r.alu_bit(Register::E, 3);
    assert!(!r.get_flag_zero());
    r.alu_res(Register::E, 3);
    assert_eq!(r.e, 0x10);
    r.alu_set(Register::E, 0);
    assert_eq!(r.e, 0x11);
    r.a = 0x0F;
    r.alu_cpl();
    assert_eq!(r.a, 0xF0);
    r.alu_srl();
    assert_eq!(r.a, 0x78);
}
