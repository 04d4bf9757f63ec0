use vcpu::constant::{Byte, Half, Quarter, Word};
use vcpu::error::ExecuteError;
use vcpu::register::Register;
use vcpu::registers::RegisterOperations;
use vcpu::Processor;

#[test]
fn destination_is_valid_register() {
    let mut p = Processor::new();
    p.registers.set_reg(Register::P1, Register::A.as_word());
    p.registers.set_reg(Register::P2, 100);
    p.execute_set().unwrap();
    let expected = 100;
    let actual = p.registers.get_reg(Register::A);
    assert_eq!(actual, expected);
}

#[test]
fn destination_is_invalid_register() {
    let mut p = Processor::new();
    p.registers.set_reg(Register::P1, Register::P1.as_word());
    p.registers.set_reg(Register::P2, 100);
    let expected = Err(ExecuteError::InvalidRegisterCast(Register::P1.as_word()));
    let actual = p.execute_set();
    assert_eq!(actual, expected);
}

#[test]
fn execute_add_causes_overflow() {
    let mut p = Processor::new();
    p.registers.set_reg(Register::A, Byte::MAX as Word);
    p.registers.set_reg(Register::P1, Register::A.as_word());
    p.registers.set_reg(Register::P2, 1);
    p.execute_add_byte().unwrap();

    assert_eq!(p.registers.get_reg(Register::A), 0);
    assert!(p.flags.zero);
    assert!(p.flags.overflow);
    assert!(!p.flags.sign);

    let mut p = Processor::new();
    p.registers.set_reg(Register::A, Quarter::MAX as Word);
    p.registers.set_reg(Register::P1, Register::A.as_word());
    p.registers.set_reg(Register::P2, 1);
    p.execute_add_quarter().unwrap();

    assert_eq!(p.registers.get_reg(Register::A), 0);
    assert!(p.flags.zero);
    assert!(p.flags.overflow);
    assert!(!p.flags.sign);
}

#[test]
fn add_causes_overflow() {
    let mut p = Processor::new();
    p.registers.set_reg(Register::A, Half::MAX as Word);
    p.registers.set_reg(Register::P1, Register::A.as_word());
    p.registers.set_reg(Register::P2, 1);
    p.execute_add_half().unwrap();

    assert_eq!(p.registers.get_reg(Register::A), 0);
    assert!(p.flags.zero);
    assert!(p.flags.overflow);
    assert!(!p.flags.sign);

    let mut p = Processor::new();
    p.registers.set_reg(Register::A, Word::MAX);
    p.registers.set_reg(Register::P1, Register::A.as_word());
    p.registers.set_reg(Register::P2, 1);
    p.execute_add_word().unwrap();

    assert_eq!(p.registers.get_reg(Register::A), 0);
    assert!(p.flags.zero);
    assert!(p.flags.overflow);
    assert!(!p.flags.sign);
}

#[test]
fn execute_add_does_not_cause_overflow() {
    let mut p = Processor::new();
    p.registers.set_reg(Register::A, Byte::MAX as Word - 1);
    p.registers.set_reg(Register::P1, Register::A.as_word());
    p.registers.set_reg(Register::P2, 1);
    p.execute_add_byte().unwrap();

    assert_eq!(p.registers.get_reg(Register::A), Byte::MAX as Word);
    assert!(!p.flags.zero);
    assert!(!p.flags.overflow);
    assert!(p.flags.sign);

    let mut p = Processor::new();
    p.registers.set_reg(Register::A, Quarter::MAX as Word - 1);
    p.registers.set_reg(Register::P1, Register::A.as_word());
    p.registers.set_reg(Register::P2, 1);
    p.execute_add_quarter().unwrap();

    assert_eq!(p.registers.get_reg(Register::A), Quarter::MAX as Word);
    assert!(!p.flags.zero);
    assert!(!p.flags.overflow);
    assert!(p.flags.sign);
}

#[test]
fn add_does_not_cause_overflow() {
    let mut p = Processor::new();
    p.registers.set_reg(Register::A, Half::MAX as Word - 1);
    p.registers.set_reg(Register::P1, Register::A.as_word());
    p.registers.set_reg(Register::P2, 1);
    p.execute_add_half().unwrap();

    assert_eq!(p.registers.get_reg(Register::A), Half::MAX as Word);
    assert!(!p.flags.zero);
    assert!(!p.flags.overflow);
    assert!(p.flags.sign);

    let mut p = Processor::new();
    p.registers.set_reg(Register::A, Word::MAX - 1);
    p.registers.set_reg(Register::P1, Register::A.as_word());
    p.registers.set_reg(Register::P2, 1);
    p.execute_add_word().unwrap();

    assert_eq!(p.registers.get_reg(Register::A), Word::MAX);
    assert!(!p.flags.zero);
    assert!(!p.flags.overflow);
    assert!(p.flags.sign);
}

#[test]
fn staged_sub_byte_subtracts_and_sets_flags() {
    let mut p = Processor::new();
    p.registers.set_reg(Register::A, 5);
    p.registers.set_reg(Register::P1, Register::A.as_word());
    p.registers.set_reg(Register::P2, 3);
    p.execute_sub_byte().unwrap();

    assert_eq!(p.registers.get_reg(Register::A), 2);
    assert!(!p.flags.zero);
    assert!(!p.flags.overflow);
    assert!(!p.flags.sign);

    let expected = Err(ExecuteError::InvalidRegisterCast(9));
    p.registers.set_reg(Register::P1, 9);
    assert_eq!(p.execute_sub_byte(), expected);
    assert_eq!(p.registers.get_reg(Register::A), 2);
}

#[test]
fn staged_stop_lowers_the_running_flag() {
    let mut p = Processor::new();
    assert!(p.running);
    p.execute_stop().unwrap();
    assert!(!p.running);
}

#[test]
fn staged_set_width_variants_move_the_staged_value() {
    let mut p = Processor::new();
    p.registers.set_reg(Register::P1, Register::B.as_word());
    p.registers.set_reg(Register::P2, 7);
    p.execute_set_byte().unwrap();
    assert_eq!(p.registers.get_reg(Register::B), 7);

    p.registers.set_reg(Register::P2, 8);
    p.execute_set_quarter().unwrap();
    assert_eq!(p.registers.get_reg(Register::B), 8);

    p.registers.set_reg(Register::P2, 9);
    p.execute_set_half().unwrap();
    assert_eq!(p.registers.get_reg(Register::B), 9);

    p.registers.set_reg(Register::P2, 10);
    p.execute_set_word().unwrap();
    assert_eq!(p.registers.get_reg(Register::B), 10);
}
