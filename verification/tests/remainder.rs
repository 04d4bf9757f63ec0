use vcpu::constant::{Byte, Half, Quarter, Word};
use vcpu::error::ExecuteError;
use vcpu::operand::Operand;
use vcpu::register::Register;
use vcpu::registers::RegisterOperations;
use vcpu::Processor;

#[test]
fn remainder_divide_by_zero_error() {
    let mut p = Processor::new();
    let expected = Err(ExecuteError::DivideByZero);

    let actual = p.rem_byte(Register::A, Operand::Immediate(0));

    assert_eq!(actual, expected);

    let mut p = Processor::new();
    let expected = Err(ExecuteError::DivideByZero);

    let actual = p.rem_quarter(Register::A, Operand::Immediate(0));

    assert_eq!(actual, expected);
}

#[test]
fn divide_by_zero_error() {
    let mut p = Processor::new();
    let expected = Err(ExecuteError::DivideByZero);

    let actual = p.rem_half(Register::A, Operand::Immediate(0));

    assert_eq!(actual, expected);

    let mut p = Processor::new();
    let expected = Err(ExecuteError::DivideByZero);

    let actual = p.rem_word(Register::A, Operand::Immediate(0));

    assert_eq!(actual, expected);
}

#[test]
fn remainder_dividend_is_zero() {
    let mut p = Processor::new();

    p.rem_byte(Register::A, Operand::Immediate(Byte::MAX)).unwrap();

    assert_eq!(p.registers.get_reg(Register::A), 0);
    assert!(!p.flags.overflow);
    assert!(p.flags.zero);
    assert!(!p.flags.sign);

    let mut p = Processor::new();

    p.rem_quarter(Register::A, Operand::Immediate(Quarter::MAX)).unwrap();

    assert_eq!(p.registers.get_reg(Register::A), 0);
    assert!(!p.flags.overflow);
    assert!(p.flags.zero);
    assert!(!p.flags.sign);
}

#[test]
fn dividend_is_zero() {
    let mut p = Processor::new();

    p.rem_half(Register::A, Operand::Immediate(Half::MAX)).unwrap();

    assert_eq!(p.registers.get_reg(Register::A), 0);
    assert!(!p.flags.overflow);
    assert!(p.flags.zero);
    assert!(!p.flags.sign);

    let mut p = Processor::new();

    p.rem_word(Register::A, Operand::Immediate(Word::MAX)).unwrap();

    assert_eq!(p.registers.get_reg(Register::A), 0);
    assert!(!p.flags.overflow);
    assert!(p.flags.zero);
    assert!(!p.flags.sign);
}

#[test]
fn remainder_dividing_two_registers() {
    let mut p = Processor::new();
    p.registers.set_reg(Register::A, 20);
    p.registers.set_reg(Register::B, 4);

    p.rem_byte(Register::A, Operand::Register(Register::B)).unwrap();

    assert_eq!(p.registers.get_reg(Register::A), 0);
    assert!(!p.flags.overflow);
    assert!(p.flags.zero);
    assert!(!p.flags.sign);

    let mut p = Processor::new();
    p.registers.set_reg(Register::A, 20);
    p.registers.set_reg(Register::B, 4);

    p.rem_quarter(Register::A, Operand::Register(Register::B)).unwrap();

    assert_eq!(p.registers.get_reg(Register::A), 0);
    assert!(!p.flags.overflow);
    assert!(p.flags.zero);
    assert!(!p.flags.sign);
}

#[test]
fn dividing_two_registers() {
    let mut p = Processor::new();
    p.registers.set_reg(Register::A, 20);
    p.registers.set_reg(Register::B, 4);

    p.rem_half(Register::A, Operand::Register(Register::B)).unwrap();

    assert_eq!(p.registers.get_reg(Register::A), 0);
    assert!(!p.flags.overflow);
    assert!(p.flags.zero);
    assert!(!p.flags.sign);

    let mut p = Processor::new();
    p.registers.set_reg(Register::A, 20);
    p.registers.set_reg(Register::B, 4);

    p.rem_word(Register::A, Operand::Register(Register::B)).unwrap();

    assert_eq!(p.registers.get_reg(Register::A), 0);
    assert!(!p.flags.overflow);
    assert!(p.flags.zero);
    assert!(!p.flags.sign);
}

#[test]
fn remainder_uneven_division() {
    let mut p = Processor::new();
    p.registers.set_reg(Register::A, 20);
    p.registers.set_reg(Register::B, 6);

    p.rem_byte(Register::A, Operand::Register(Register::B)).unwrap();

    assert_eq!(p.registers.get_reg(Register::A), 2);
    assert!(!p.flags.overflow);
    assert!(!p.flags.zero);
    assert!(!p.flags.sign);

    let mut p = Processor::new();
    p.registers.set_reg(Register::A, 20);
    p.registers.set_reg(Register::B, 6);

    p.rem_quarter(Register::A, Operand::Register(Register::B)).unwrap();

    assert_eq!(p.registers.get_reg(Register::A), 2);
    assert!(!p.flags.overflow);
    assert!(!p.flags.zero);
    assert!(!p.flags.sign);
}

#[test]
fn uneven_division() {
    let mut p = Processor::new();
    p.registers.set_reg(Register::A, 20);
    p.registers.set_reg(Register::B, 6);

    p.rem_half(Register::A, Operand::Register(Register::B)).unwrap();

    assert_eq!(p.registers.get_reg(Register::A), 2);
    assert!(!p.flags.overflow);
    assert!(!p.flags.zero);
    assert!(!p.flags.sign);

    let mut p = Processor::new();
    p.registers.set_reg(Register::A, 20);
    p.registers.set_reg(Register::B, 6);

    p.rem_word(Register::A, Operand::Register(Register::B)).unwrap();

    assert_eq!(p.registers.get_reg(Register::A), 2);
    assert!(!p.flags.overflow);
    assert!(!p.flags.zero);
    assert!(!p.flags.sign);
}
