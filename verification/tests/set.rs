use vcpu::operand::Operand;
use vcpu::register::Register;
use vcpu::registers::RegisterOperations;
use vcpu::Processor;

#[test]
fn set_byte() {
    let mut p = Processor::new();

    p.set_byte(Register::A, Operand::Immediate(1));

    assert_eq!(p.registers.get_reg(Register::A), 1);
}

#[test]
fn set_quarter() {
    let mut p = Processor::new();

    p.set_quarter(Register::A, Operand::Immediate(1));

    assert_eq!(p.registers.get_reg(Register::A), 1);
}

#[test]
fn set_half() {
    let mut p = Processor::new();

    p.set_half(Register::A, Operand::Immediate(1));

    assert_eq!(p.registers.get_reg(Register::A), 1);
}

#[test]
fn set_word() {
    let mut p = Processor::new();

    p.set_word(Register::A, Operand::Immediate(1));

    assert_eq!(p.registers.get_reg(Register::A), 1);
}
