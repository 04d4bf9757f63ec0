use vcpu::constant::Width;
use vcpu::decode::decode;
use vcpu::decode::mul::MulDecoder;
use vcpu::error::DecodeError;
use vcpu::instruction::{
    AddInstruction, CompareInstruction, Instruction, MulInstruction, Not, PopInstruction,
    PushInstruction, Remainder, SetInstruction,
};
use vcpu::operand::Operand;
use vcpu::register::Register;

fn toks(words: &[&str]) -> Vec<String> {
    words.iter().map(|w| w.to_string()).collect()
}

#[test]
fn decode_add_byte_missing_operand_is_an_error() {
    let r = decode("add-byte", &toks(&["a"]));
    assert_eq!(r, Err(DecodeError::IncompleteInstruction));
}

#[test]
fn decode_rejects_trailing_token() {
    let r = decode("add-byte", &toks(&["a", "1", "2"]));
    assert_eq!(r, Err(DecodeError::UnexpectedToken("2".to_string())));
    let r = decode("stop", &toks(&["a"]));
    assert_eq!(r, Err(DecodeError::UnexpectedToken("a".to_string())));
    let r = decode("jump", &toks(&["1", "2"]));
    assert_eq!(r, Err(DecodeError::UnexpectedToken("2".to_string())));
}

#[test]
fn decode_unknown_opcode() {
    let r = decode("frobnicate", &toks(&[]));
    assert_eq!(
        r,
        Err(DecodeError::UnknownInstruction("frobnicate".to_string()))
    );
}

#[test]
fn decode_invalid_register() {
    let r = decode("add-byte", &toks(&["z", "5"]));
    assert_eq!(r, Err(DecodeError::InvalidRegister("z".to_string())));
    let r = decode("push-word", &toks(&["7"]));
    assert_eq!(r, Err(DecodeError::InvalidRegister("7".to_string())));
}

#[test]
fn decode_out_of_range_literal_is_an_error() {
    let r = decode("add-byte", &toks(&["a", "256"]));
    assert_eq!(
        r,
        Err(DecodeError::InvalidOperand(Width::Byte, "256".to_string()))
    );
    let r = decode("set-quarter", &toks(&["a", "65536"]));
    assert_eq!(
        r,
        Err(DecodeError::InvalidOperand(Width::Quarter, "65536".to_string()))
    );
    let r = decode("set-half", &toks(&["a", "4294967296"]));
    assert_eq!(
        r,
        Err(DecodeError::InvalidOperand(Width::Half, "4294967296".to_string()))
    );
    let r = decode("set-word", &toks(&["a", "18446744073709551616"]));
    assert_eq!(
        r,
        Err(DecodeError::InvalidOperand(Width::Word, "18446744073709551616".to_string()))
    );
}

#[test]
fn decode_rejects_non_numeric_operand() {
    let r = decode("rem-byte", &toks(&["a", "1x"]));
    assert_eq!(
        r,
        Err(DecodeError::InvalidOperand(Width::Byte, "1x".to_string()))
    );
}

#[test]
fn decode_register_and_immediate_operands() {
    let r = decode("add-byte", &toks(&["a", "b"]));
    assert_eq!(
        r,
        Ok(Instruction::Addition(AddInstruction::Byte(
            Register::A,
            Operand::Register(Register::B),
        )))
    );
    let r = decode("add-byte", &toks(&["a", "255"]));
    assert_eq!(
        r,
        Ok(Instruction::Addition(AddInstruction::Byte(
            Register::A,
            Operand::Immediate(255),
        )))
    );
    let r = decode("set-word", &toks(&["sp", "18446744073709551615"]));
    assert_eq!(
        r,
        Ok(Instruction::SetReg(SetInstruction::Word(
            Register::SP,
            Operand::Immediate(u64::MAX),
        )))
    );
}

#[test]
fn decode_every_shape() {
    assert_eq!(decode("stop", &toks(&[])), Ok(Instruction::Stop));
    assert_eq!(decode("return", &toks(&[])), Ok(Instruction::Return));
    assert_eq!(
        decode("call", &toks(&["3"])),
        Ok(Instruction::Call(Operand::Immediate(3)))
    );
    assert_eq!(
        decode("jump", &toks(&["d"])),
        Ok(Instruction::Jump(Operand::Register(Register::D)))
    );
    assert_eq!(
        decode("print-register", &toks(&["c"])),
        Ok(Instruction::PrintRegister(Register::C))
    );
    assert_eq!(
        decode("print-stack", &toks(&["8"])),
        Ok(Instruction::PrintStack(Operand::Immediate(8)))
    );
    assert_eq!(
        decode("push-word", &toks(&["a"])),
        Ok(Instruction::Push(PushInstruction::Word(Register::A)))
    );
    assert_eq!(
        decode("pop-half", &toks(&["b"])),
        Ok(Instruction::Pop(PopInstruction::Half(Register::B)))
    );
    assert_eq!(
        decode("not-byte", &toks(&["a"])),
        Ok(Instruction::Not(Not::Byte(Register::A)))
    );
    assert_eq!(
        decode("rem-quarter", &toks(&["a", "6"])),
        Ok(Instruction::Remainder(Remainder::Quarter(
            Register::A,
            Operand::Immediate(6),
        )))
    );
    assert_eq!(
        decode("compare-word", &toks(&["a", "b"])),
        Ok(Instruction::Compare(CompareInstruction::Word(
            Register::A,
            Operand::Register(Register::B),
        )))
    );
}

#[test]
fn decode_mul_routines() {
    assert_eq!(
        MulDecoder::decode_mul_byte(&toks(&["a", "16"])),
        Ok(Instruction::Multiplication(MulInstruction::Byte(
            Register::A,
            Operand::Immediate(16),
        )))
    );
    assert_eq!(
        MulDecoder::decode_mul_quarter(&toks(&["b", "c"])),
        Ok(Instruction::Multiplication(MulInstruction::Quarter(
            Register::B,
            Operand::Register(Register::C),
        )))
    );
    assert_eq!(
        MulDecoder::decode_mul_half(&toks(&["c", "70000"])),
        Ok(Instruction::Multiplication(MulInstruction::Half(
            Register::C,
            Operand::Immediate(70000),
        )))
    );
    assert_eq!(
        MulDecoder::decode_mul_word(&toks(&["d", "sp"])),
        Ok(Instruction::Multiplication(MulInstruction::Word(
            Register::D,
            Operand::Register(Register::SP),
        )))
    );
    assert_eq!(
        MulDecoder::decode_mul_byte(&toks(&["a"])),
        Err(DecodeError::IncompleteInstruction)
    );
    assert_eq!(
        decode("mul-byte", &toks(&["a", "2"])),
        Ok(Instruction::Multiplication(MulInstruction::Byte(
            Register::A,
            Operand::Immediate(2),
        )))
    );
}

#[test]
fn decode_empty_operand_token_lists() {
    assert_eq!(
        decode("return", &toks(&["x"])),
        Err(DecodeError::UnexpectedToken("x".to_string()))
    );
    assert_eq!(
        decode("call", &toks(&[])),
        Err(DecodeError::IncompleteInstruction)
    );
    assert_eq!(
        decode("print-register", &toks(&[])),
        Err(DecodeError::IncompleteInstruction)
    );
}
