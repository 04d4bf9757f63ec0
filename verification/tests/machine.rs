use vcpu::constant::{Byte, Word};
use vcpu::error::{DecodeError, ExecuteError, RunError};
use vcpu::instruction::{AndInstruction, Not, OrInstruction, TestInstruction, XorInstruction};
use vcpu::operand::Operand;
use vcpu::output::OutputEvent;
use vcpu::program::ProgramLine;
use vcpu::register::Register;
use vcpu::registers::RegisterOperations;
use vcpu::Processor;

fn line(opcode: &str, operands: &[&str]) -> ProgramLine {
    ProgramLine {
        opcode: opcode.to_string(),
        operands: operands.iter().map(|w| w.to_string()).collect(),
    }
}

#[test]
fn add_then_sub_restores_the_register() {
    let mut p = Processor::new();
    p.registers.set_reg(Register::A, 200);
    p.add_byte(Register::A, Operand::Immediate(100));
    p.sub_byte(Register::A, Operand::Immediate(100));
    assert_eq!(p.registers.get_reg(Register::A), 200);
    assert!(!p.flags.zero);

    let mut p = Processor::new();
    p.registers.set_reg(Register::B, u64::MAX - 1);
    p.add_word(Register::B, Operand::Immediate(7));
    p.sub_word(Register::B, Operand::Immediate(7));
    assert_eq!(p.registers.get_reg(Register::B), u64::MAX - 1);
    assert!(!p.flags.zero);

    let mut p = Processor::new();
    p.registers.set_reg(Register::D, 70_000);
    p.add_half(Register::D, Operand::Immediate(3));
    p.sub_half(Register::D, Operand::Immediate(3));
    assert_eq!(p.registers.get_reg(Register::D), 70_000);
    assert!(!p.flags.zero);

    let mut p = Processor::new();
    p.add_quarter(Register::C, Operand::Immediate(9));
    p.sub_quarter(Register::C, Operand::Immediate(9));
    assert_eq!(p.registers.get_reg(Register::C), 0);
    assert!(p.flags.zero);
}

#[test]
fn add_byte_overflow_sets_the_flags() {
    let mut p = Processor::new();
    p.registers.set_reg(Register::A, 255);
    p.add_byte(Register::A, Operand::Immediate(1));
    assert_eq!(p.registers.get_reg(Register::A), 0);
    assert!(p.flags.overflow);
    assert!(p.flags.zero);
    assert!(!p.flags.sign);
}

#[test]
fn sub_byte_underflow_sets_the_flags() {
    let mut p = Processor::new();
    p.sub_byte(Register::A, Operand::Immediate(1));
    assert_eq!(p.registers.get_reg(Register::A), 255);
    assert!(p.flags.overflow);
    assert!(!p.flags.zero);
    assert!(p.flags.sign);
}

#[test]
fn rem_byte_uneven_division_flags() {
    let mut p = Processor::new();
    p.registers.set_reg(Register::A, 20);
    p.rem_byte(Register::A, Operand::Immediate(6)).unwrap();
    assert_eq!(p.registers.get_reg(Register::A), 2);
    assert!(!p.flags.zero);
    assert!(!p.flags.overflow);
    assert!(!p.flags.sign);
}

#[test]
fn div_byte_computes_quotient() {
    let mut p = Processor::new();
    p.registers.set_reg(Register::A, 20);
    p.div_byte(Register::A, Operand::Immediate(6)).unwrap();
    assert_eq!(p.registers.get_reg(Register::A), 3);
    assert!(!p.flags.zero);
    assert!(!p.flags.overflow);
    assert!(!p.flags.sign);
}

#[test]
fn div_by_zero_leaves_the_machine_untouched() {
    let mut p = Processor::new();
    p.registers.set_reg(Register::A, 20);
    p.add_byte(Register::A, Operand::Immediate(1));
    let flags_before = p.flags;
    let r = p.div_word(Register::A, Operand::Immediate(0));
    assert_eq!(r, Err(ExecuteError::DivideByZero));
    assert_eq!(p.registers.get_reg(Register::A), 21);
    assert_eq!(p.flags, flags_before);
    let r = p.rem_half(Register::A, Operand::Immediate(0));
    assert_eq!(r, Err(ExecuteError::DivideByZero));
    assert_eq!(p.registers.get_reg(Register::A), 21);
    assert_eq!(p.flags, flags_before);
}

#[test]
fn mul_byte_overflow_wraps() {
    let mut p = Processor::new();
    p.registers.set_reg(Register::A, 16);
    p.mul_byte(Register::A, Operand::Immediate(16));
    assert_eq!(p.registers.get_reg(Register::A), 0);
    assert!(p.flags.overflow);
    assert!(p.flags.zero);
}

#[test]
fn bitwise_instructions_compute_exact_results() {
    let mut p = Processor::new();
    p.registers.set_reg(Register::A, 0b1100);
    p.and(AndInstruction::Byte(Register::A, Operand::Immediate(0b1010)));
    assert_eq!(p.registers.get_reg(Register::A), 0b1000);

    p.registers.set_reg(Register::B, 0b1100);
    p.or(OrInstruction::Byte(Register::B, Operand::Immediate(0b1010)));
    assert_eq!(p.registers.get_reg(Register::B), 0b1110);

    p.registers.set_reg(Register::C, 0b1100);
    p.xor(XorInstruction::Byte(Register::C, Operand::Immediate(0b1010)));
    assert_eq!(p.registers.get_reg(Register::C), 0b0110);

    p.registers.set_reg(Register::D, 0);
    p.not(Not::Byte(Register::D));
    assert_eq!(p.registers.get_reg(Register::D), 255);
    assert!(!p.flags.overflow);
    assert!(p.flags.sign);
}

#[test]
fn test_and_compare_touch_only_flags() {
    let mut p = Processor::new();
    p.registers.set_reg(Register::A, 9);
    p.test(TestInstruction::Byte(Register::A, Operand::Immediate(6)));
    assert_eq!(p.registers.get_reg(Register::A), 9);
    assert!(p.flags.zero);

    p.compare_byte(Register::A, Operand::Immediate(9));
    assert_eq!(p.registers.get_reg(Register::A), 9);
    assert!(p.flags.zero);
    assert!(!p.flags.overflow);

    p.compare_byte(Register::A, Operand::Immediate(10));
    assert_eq!(p.registers.get_reg(Register::A), 9);
    assert!(!p.flags.zero);
    assert!(p.flags.overflow);
    assert!(p.flags.sign);
}

#[test]
fn push_then_pop_restores_pointer_and_value() {
    let mut p = Processor::new();
    p.registers.set_reg(Register::A, 0xDEAD_BEEF_CAFE_F00D);
    let sp_before = p.registers.get_reg(Register::SP);
    p.push_word_value(0xDEAD_BEEF_CAFE_F00D).unwrap();
    assert_eq!(p.registers.get_reg(Register::SP), sp_before + 8);
    let v = p.pop_word_value().unwrap();
    assert_eq!(v, 0xDEAD_BEEF_CAFE_F00D);
    assert_eq!(p.registers.get_reg(Register::SP), sp_before);

    p.push_quarter_value(0xBEEF).unwrap();
    assert_eq!(p.pop_quarter_value().unwrap(), 0xBEEF);
    p.push_half_value(0xCAFE_F00D).unwrap();
    assert_eq!(p.pop_half_value().unwrap(), 0xCAFE_F00D);
    p.push_byte_value(0x7F).unwrap();
    assert_eq!(p.pop_byte_value().unwrap(), 0x7F);
    assert_eq!(p.registers.get_reg(Register::SP), sp_before);
}

#[test]
fn pop_from_empty_stack_underflows_without_moving_the_pointer() {
    let mut p = Processor::new();
    let r = p.pop_word_value();
    assert_eq!(r, Err(ExecuteError::StackUnderflow));
    assert_eq!(p.registers.get_reg(Register::SP), 0);
    let r = p.pop_byte_value();
    assert_eq!(r, Err(ExecuteError::StackUnderflow));
    assert_eq!(p.registers.get_reg(Register::SP), 0);
}

#[test]
fn push_past_capacity_overflows_without_writing() {
    let mut p = Processor::with_stack_capacity(4);
    let r = p.push_word_value(1);
    assert_eq!(r, Err(ExecuteError::StackOverflow));
    assert_eq!(p.registers.get_reg(Register::SP), 0);
    p.push_half_value(0x0403_0201).unwrap();
    let r = p.push_byte_value(5);
    assert_eq!(r, Err(ExecuteError::StackOverflow));
    assert_eq!(p.registers.get_reg(Register::SP), 4);
}

#[test]
fn stack_pointer_beyond_capacity_is_an_overflow_error() {
    let mut p = Processor::with_stack_capacity(16);
    p.set_word(Register::SP, Operand::Immediate(1_000_000));
    let r = p.pop_byte_value();
    assert_eq!(r, Err(ExecuteError::StackOverflow));
    assert_eq!(p.registers.get_reg(Register::SP), 1_000_000);
}

#[test]
fn invalid_computed_destination_mutates_no_register() {
    let mut p = Processor::new();
    p.registers.set_reg(Register::A, 11);
    p.registers.set_reg(Register::P1, 100);
    p.registers.set_reg(Register::P2, 5);
    let r = p.execute_set();
    assert_eq!(r, Err(ExecuteError::InvalidRegisterCast(100)));
    assert_eq!(p.registers.get_reg(Register::A), 11);
    assert_eq!(p.registers.get_reg(Register::B), 0);
    assert_eq!(p.registers.get_reg(Register::C), 0);
    assert_eq!(p.registers.get_reg(Register::D), 0);
    assert_eq!(p.registers.get_reg(Register::SP), 0);
    assert_eq!(p.registers.get_reg(Register::P1), 100);
    assert_eq!(p.registers.get_reg(Register::P2), 5);
}

#[test]
fn call_and_return_resume_after_the_call() {
    let program = vec![
        line("call", &["3"]),
        line("set-byte", &["a", "9"]),
        line("stop", &[]),
        line("set-byte", &["b", "7"]),
        line("return", &[]),
    ];
    let mut p = Processor::new();
    p.run(&program).unwrap();
    assert!(!p.running);
    assert_eq!(p.registers.get_reg(Register::A), 9);
    assert_eq!(p.registers.get_reg(Register::B), 7);
    assert_eq!(p.registers.get_reg(Register::SP), 0);
    assert_eq!(p.instructions_executed, 5);
}

#[test]
fn return_on_empty_stack_underflows() {
    let program = vec![line("return", &[])];
    let mut p = Processor::new();
    let r = p.run(&program);
    assert_eq!(r, Err(RunError::Execute(ExecuteError::StackUnderflow)));
    assert!(!p.running);
}

#[test]
fn jump_skips_the_jumped_over_line() {
    let program = vec![
        line("jump", &["2"]),
        line("set-byte", &["a", "1"]),
        line("stop", &[]),
    ];
    let mut p = Processor::new();
    p.run(&program).unwrap();
    assert_eq!(p.registers.get_reg(Register::A), 0);
    assert!(!p.running);
}

#[test]
fn run_aborts_on_divide_by_zero() {
    let program = vec![
        line("set-byte", &["a", "8"]),
        line("div-byte", &["a", "0"]),
        line("set-byte", &["b", "1"]),
    ];
    let mut p = Processor::new();
    let r = p.run(&program);
    assert_eq!(r, Err(RunError::Execute(ExecuteError::DivideByZero)));
    assert!(!p.running);
    assert_eq!(p.registers.get_reg(Register::A), 8);
    assert_eq!(p.registers.get_reg(Register::B), 0);
}

#[test]
fn run_aborts_on_a_decode_error() {
    let program = vec![line("set-byte", &["a"]), line("stop", &[])];
    let mut p = Processor::new();
    let r = p.run(&program);
    assert_eq!(r, Err(RunError::Decode(DecodeError::IncompleteInstruction)));
    assert!(!p.running);
    assert_eq!(p.instructions_executed, 0);
}

#[test]
fn exhausted_source_is_an_implicit_stop() {
    let program = vec![line("set-byte", &["a", "3"])];
    let mut p = Processor::new();
    p.run(&program).unwrap();
    assert!(!p.running);
    assert_eq!(p.registers.get_reg(Register::A), 3);
    assert_eq!(p.instructions_executed, 1);
}

#[test]
fn stop_reports_the_instruction_count_when_configured() {
    let program = vec![line("set-byte", &["a", "1"]), line("stop", &[])];
    let mut p = Processor::new();
    p.print_instructions_executed = true;
    p.run(&program).unwrap();
    assert_eq!(p.output, vec![OutputEvent::InstructionsExecuted(1)]);

    let mut p = Processor::new();
    p.run(&program).unwrap();
    assert_eq!(p.output, vec![]);
}

#[test]
fn print_instructions_emit_events() {
    let program = vec![
        line("set-byte", &["a", "5"]),
        line("print-register", &["a"]),
        line("push-quarter", &["a"]),
        line("print-stack", &["2"]),
        line("stop", &[]),
    ];
    let mut p = Processor::new();
    p.run(&program).unwrap();
    assert_eq!(
        p.output,
        vec![
            OutputEvent::Register(Register::A, 5),
            OutputEvent::Stack(vec![5, 0]),
        ]
    );
}

#[test]
fn step_is_a_single_cycle() {
    let mut p = Processor::new();
    p.step(&line("set-word", &["d", "44"])).unwrap();
    assert_eq!(p.registers.get_reg(Register::D), 44);
    assert_eq!(p.program_counter, 1);
    assert_eq!(p.instructions_executed, 1);
    assert!(p.running);

    let r = p.step(&line("nonsense", &[]));
    assert_eq!(
        r,
        Err(RunError::Decode(DecodeError::UnknownInstruction(
            "nonsense".to_string()
        )))
    );
    assert!(!p.running);
}

#[test]
fn narrow_writes_zero_extend_into_the_cell() {
    let mut p = Processor::new();
    p.registers.set_reg(Register::A, Word::MAX);
    p.set_byte(Register::A, Operand::Immediate(Byte::MAX));
    assert_eq!(p.registers.get_reg(Register::A), 255);

    p.registers.set_reg(Register::B, Word::MAX);
    p.add_byte(Register::B, Operand::Immediate(0));
    assert_eq!(p.registers.get_reg(Register::B), 255);

    p.registers.set_reg(Register::C, 0x1234);
    assert_eq!(p.registers.get_reg_as_byte(Register::C), 0x34);
    assert_eq!(p.registers.get_reg_as_quarter(Register::C), 0x1234);
    assert_eq!(p.registers.get_reg_as_half(Register::C), 0x1234);
}

#[test]
fn push_and_pop_instructions_round_trip_through_a_program() {
    let program = vec![
        line("set-word", &["a", "300"]),
        line("push-word", &["a"]),
        line("pop-word", &["b"]),
        line("stop", &[]),
    ];
    let mut p = Processor::new();
    p.run(&program).unwrap();
    assert_eq!(p.registers.get_reg(Register::B), 300);
    assert_eq!(p.registers.get_reg(Register::SP), 0);
}

#[test]
fn print_stack_window_below_the_bottom_underflows() {
    let program = vec![line("print-stack", &["5"])];
    let mut p = Processor::new();
    let r = p.run(&program);
    assert_eq!(r, Err(RunError::Execute(ExecuteError::StackUnderflow)));
    assert_eq!(p.output, vec![]);
}

#[test]
fn computed_destination_accepts_every_named_register() {
    for (id, register) in [
        (0, Register::A),
        (1, Register::B),
        (2, Register::C),
        (3, Register::D),
        (4, Register::SP),
    ] {
        assert_eq!(Register::try_from(id), Ok(register));
    }
    for id in [5, 6, 7, 100, u64::MAX] {
        assert_eq!(
            Register::try_from(id),
            Err(ExecuteError::InvalidRegisterCast(id))
        );
    }
    assert_eq!(Register::P1.as_word(), 5);
    assert_eq!(Register::P2.as_word(), 6);
}
