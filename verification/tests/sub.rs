use vcpu::constant::{Byte, Half, Quarter, Word};
use vcpu::operand::Operand;
use vcpu::register::Register;
use vcpu::registers::RegisterOperations;
use vcpu::Processor;

#[test]
fn sub_sub_causes_overflow() {
    let mut p = Processor::new();
    p.registers.set_reg(Register::A, Byte::MIN as Word);

    p.sub_byte(Register::A, Operand::Immediate(1));

    assert!(p.flags.overflow);
    assert!(!p.flags.zero);
    assert!(p.flags.sign);

    let mut p = Processor::new();
    p.registers.set_reg(Register::A, Quarter::MIN as Word);

    p.sub_quarter(Register::A, Operand::Immediate(1));

    assert!(p.flags.overflow);
    assert!(!p.flags.zero);
    assert!(p.flags.sign);
}

#[test]
fn sub_causes_overflow() {
    let mut p = Processor::new();
    p.registers.set_reg(Register::A, Half::MIN as Word);

    p.sub_half(Register::A, Operand::Immediate(1));

    assert!(p.flags.overflow);
    assert!(!p.flags.zero);
    assert!(p.flags.sign);

    let mut p = Processor::new();
    p.registers.set_reg(Register::A, Word::MIN);

    p.sub_word(Register::A, Operand::Immediate(1));

    assert!(p.flags.overflow);
    assert!(!p.flags.zero);
    assert!(p.flags.sign);
}

#[test]
fn sub_sub_does_not_cause_overflow() {
    let mut p = Processor::new();
    p.registers.set_reg(Register::A, Byte::MAX as Word);

    p.sub_byte(Register::A, Operand::Immediate(1));

    assert!(!p.flags.overflow);
    assert!(!p.flags.zero);
    assert!(p.flags.sign);

    let mut p = Processor::new();
    p.registers.set_reg(Register::A, Quarter::MAX as Word);

    p.sub_quarter(Register::A, Operand::Immediate(1));

    assert!(!p.flags.overflow);
    assert!(!p.flags.zero);
    assert!(p.flags.sign);
}

#[test]
fn sub_does_not_cause_overflow() {
    let mut p = Processor::new();
    p.registers.set_reg(Register::A, Half::MAX as Word);

    p.sub_half(Register::A, Operand::Immediate(1));

    assert!(!p.flags.overflow);
    assert!(!p.flags.zero);
    assert!(p.flags.sign);

    let mut p = Processor::new();
    p.registers.set_reg(Register::A, Word::MAX);

    p.sub_word(Register::A, Operand::Immediate(1));

    assert!(!p.flags.overflow);
    assert!(!p.flags.zero);
    assert!(p.flags.sign);
}

#[test]
fn sub_sub_two_registers_together() {
    let mut p = Processor::new();
    p.registers.set_reg(Register::A, 2);
    p.registers.set_reg(Register::B, 2);
    let expected = 0;

    p.sub_byte(Register::A, Operand::Register(Register::B));

    assert!(!p.flags.overflow);
    assert!(p.flags.zero);
    assert!(!p.flags.sign);
    assert_eq!(p.registers.get_reg(Register::A), expected);

    let mut p = Processor::new();
    p.registers.set_reg(Register::A, 2);
    p.registers.set_reg(Register::B, 2);
    let expected = 0;

    p.sub_quarter(Register::A, Operand::Register(Register::B));

    assert!(!p.flags.overflow);
    assert!(p.flags.zero);
    assert!(!p.flags.sign);
    assert_eq!(p.registers.get_reg(Register::A), expected);
}

#[test]
fn sub_two_registers_together() {
    let mut p = Processor::new();
    p.registers.set_reg(Register::A, 2);
    p.registers.set_reg(Register::B, 2);
    let expected = 0;

    p.sub_half(Register::A, Operand::Register(Register::B));

    assert!(!p.flags.overflow);
    assert!(p.flags.zero);
    assert!(!p.flags.sign);
    assert_eq!(p.registers.get_reg(Register::A), expected);

    let mut p = Processor::new();
    p.registers.set_reg(Register::A, 2);
    p.registers.set_reg(Register::B, 2);
    let expected = 0;

    p.sub_word(Register::A, Operand::Register(Register::B));

    assert!(!p.flags.overflow);
    assert!(p.flags.zero);
    assert!(!p.flags.sign);
    assert_eq!(p.registers.get_reg(Register::A), expected);
}

#[test]
fn sub_sub_the_register_to_itself() {
    let mut p = Processor::new();
    p.registers.set_reg(Register::A, 2);
    let expected = 0;

    p.sub_byte(Register::A, Operand::Register(Register::A));

    assert!(!p.flags.overflow);
    assert!(p.flags.zero);
    assert!(!p.flags.sign);
    assert_eq!(p.registers.get_reg(Register::A), expected);

    let mut p = Processor::new();
    p.registers.set_reg(Register::A, 2);
    let expected = 0;

    p.sub_quarter(Register::A, Operand::Register(Register::A));

    assert!(!p.flags.overflow);
    assert!(p.flags.zero);
    assert!(!p.flags.sign);
    assert_eq!(p.registers.get_reg(Register::A), expected);
}

#[test]
fn sub_the_register_to_itself() {
    let mut p = Processor::new();
    p.registers.set_reg(Register::A, 2);
    let expected = 0;

    p.sub_half(Register::A, Operand::Register(Register::A));

    assert!(!p.flags.overflow);
    assert!(p.flags.zero);
    assert!(!p.flags.sign);
    assert_eq!(p.registers.get_reg(Register::A), expected);

    let mut p = Processor::new();
    p.registers.set_reg(Register::A, 2);
    let expected = 0;

    p.sub_word(Register::A, Operand::Register(Register::A));

    assert!(!p.flags.overflow);
    assert!(p.flags.zero);
    assert!(!p.flags.sign);
    assert_eq!(p.registers.get_reg(Register::A), expected);
}
