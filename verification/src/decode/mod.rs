//! The decoder: maps an opcode token and the remaining operand tokens of
//! an instruction line to a typed instruction, or fails identifying the
//! malformed token and the expected shape. The opcode table is the closed
//! mnemonic vocabulary written out below; decoding is a pure function of
//! the tokens and never touches machine state.

use vstd::prelude::*;

use crate::constant::{Byte, Half, Quarter, Width, Word};
use crate::decode::mul::MulDecoder;
use crate::decode::parse::{
    parse_byte_operand, parse_half_operand, parse_quarter_operand, parse_register,
    parse_word_operand, spec_operand_byte, spec_operand_half, spec_operand_quarter,
    spec_operand_word, spec_parse_register, str_eq,
};
use crate::error::DecodeError;
use crate::instruction::{
    AddInstruction, AndInstruction, CompareInstruction, DivInstruction, Instruction,
    MulInstruction, Not, OrInstruction, PopInstruction, PushInstruction, Remainder,
    SetInstruction, SubInstruction, TestInstruction, XorInstruction,
};
use crate::operand::Operand;
use crate::register::Register;

pub mod mul;
pub mod parse;

verus! {

/// Shape check for an instruction that takes no operand tokens.
pub open spec fn no_operands_ok(toks: Seq<Seq<char>>) -> bool {
    toks.len() == 0
}

/// The error a failed no-operand shape reports.
pub open spec fn no_operands_err(toks: Seq<Seq<char>>, e: DecodeError) -> bool {
    e is UnexpectedToken && e->UnexpectedToken_0@ == toks[0]
}

/// Shape result for an instruction that takes exactly one register
/// token.
pub open spec fn reg_only_ok(toks: Seq<Seq<char>>) -> Option<Register> {
    if toks.len() == 1 {
        spec_parse_register(toks[0])
    } else {
        None
    }
}

/// The error a failed one-register shape reports.
pub open spec fn reg_only_err(toks: Seq<Seq<char>>, e: DecodeError) -> bool {
    if toks.len() < 1 {
        e is IncompleteInstruction
    } else if toks.len() > 1 {
        e is UnexpectedToken && e->UnexpectedToken_0@ == toks[1]
    } else {
        e is InvalidRegister && e->InvalidRegister_0@ == toks[0]
    }
}

/// Shape result for an instruction that takes exactly one word-width
/// operand token.
pub open spec fn word_operand_only_ok(toks: Seq<Seq<char>>) -> Option<Operand<Word>> {
    if toks.len() == 1 {
        spec_operand_word(toks[0])
    } else {
        None
    }
}

/// The error a failed one-operand shape reports.
pub open spec fn word_operand_only_err(toks: Seq<Seq<char>>, e: DecodeError) -> bool {
    if toks.len() < 1 {
        e is IncompleteInstruction
    } else if toks.len() > 1 {
        e is UnexpectedToken && e->UnexpectedToken_0@ == toks[1]
    } else {
        e is InvalidOperand && e->InvalidOperand_0 == Width::Word && e->InvalidOperand_1@
            == toks[0]
    }
}

/// Shape result for an instruction that takes a destination register
/// token and then one byte-width operand token.
pub open spec fn reg_byte_ok(toks: Seq<Seq<char>>) -> Option<(Register, Operand<Byte>)> {
    if toks.len() == 2 && spec_parse_register(toks[0]) is Some && spec_operand_byte(toks[1])
        is Some {
        Some((spec_parse_register(toks[0])->0, spec_operand_byte(toks[1])->0))
    } else {
        None
    }
}

/// The error a failed register-and-byte-operand shape reports.
pub open spec fn reg_byte_err(toks: Seq<Seq<char>>, e: DecodeError) -> bool {
    if toks.len() < 2 {
        e is IncompleteInstruction
    } else if toks.len() > 2 {
        e is UnexpectedToken && e->UnexpectedToken_0@ == toks[2]
    } else if spec_parse_register(toks[0]) is None {
        e is InvalidRegister && e->InvalidRegister_0@ == toks[0]
    } else {
        e is InvalidOperand && e->InvalidOperand_0 == Width::Byte && e->InvalidOperand_1@
            == toks[1]
    }
}

/// Shape result for an instruction that takes a destination register
/// token and then one quarter-width operand token.
pub open spec fn reg_quarter_ok(toks: Seq<Seq<char>>) -> Option<(Register, Operand<Quarter>)> {
    if toks.len() == 2 && spec_parse_register(toks[0]) is Some && spec_operand_quarter(toks[1])
        is Some {
        Some((spec_parse_register(toks[0])->0, spec_operand_quarter(toks[1])->0))
    } else {
        None
    }
}

/// The error a failed register-and-quarter-operand shape reports.
pub open spec fn reg_quarter_err(toks: Seq<Seq<char>>, e: DecodeError) -> bool {
    if toks.len() < 2 {
        e is IncompleteInstruction
    } else if toks.len() > 2 {
        e is UnexpectedToken && e->UnexpectedToken_0@ == toks[2]
    } else if spec_parse_register(toks[0]) is None {
        e is InvalidRegister && e->InvalidRegister_0@ == toks[0]
    } else {
        e is InvalidOperand && e->InvalidOperand_0 == Width::Quarter && e->InvalidOperand_1@
            == toks[1]
    }
}

/// Shape result for an instruction that takes a destination register
/// token and then one half-width operand token.
pub open spec fn reg_half_ok(toks: Seq<Seq<char>>) -> Option<(Register, Operand<Half>)> {
    if toks.len() == 2 && spec_parse_register(toks[0]) is Some && spec_operand_half(toks[1])
        is Some {
        Some((spec_parse_register(toks[0])->0, spec_operand_half(toks[1])->0))
    } else {
        None
    }
}

/// The error a failed register-and-half-operand shape reports.
pub open spec fn reg_half_err(toks: Seq<Seq<char>>, e: DecodeError) -> bool {
    if toks.len() < 2 {
        e is IncompleteInstruction
    } else if toks.len() > 2 {
        e is UnexpectedToken && e->UnexpectedToken_0@ == toks[2]
    } else if spec_parse_register(toks[0]) is None {
        e is InvalidRegister && e->InvalidRegister_0@ == toks[0]
    } else {
        e is InvalidOperand && e->InvalidOperand_0 == Width::Half && e->InvalidOperand_1@
            == toks[1]
    }
}

/// Shape result for an instruction that takes a destination register
/// token and then one word-width operand token.
pub open spec fn reg_word_ok(toks: Seq<Seq<char>>) -> Option<(Register, Operand<Word>)> {
    if toks.len() == 2 && spec_parse_register(toks[0]) is Some && spec_operand_word(toks[1])
        is Some {
        Some((spec_parse_register(toks[0])->0, spec_operand_word(toks[1])->0))
    } else {
        None
    }
}

/// The error a failed register-and-word-operand shape reports.
pub open spec fn reg_word_err(toks: Seq<Seq<char>>, e: DecodeError) -> bool {
    if toks.len() < 2 {
        e is IncompleteInstruction
    } else if toks.len() > 2 {
        e is UnexpectedToken && e->UnexpectedToken_0@ == toks[2]
    } else if spec_parse_register(toks[0]) is None {
        e is InvalidRegister && e->InvalidRegister_0@ == toks[0]
    } else {
        e is InvalidOperand && e->InvalidOperand_0 == Width::Word && e->InvalidOperand_1@
            == toks[1]
    }
}


/// Consumes an empty operand list; a remaining token is a decode error,
/// never silently ignored.
pub fn decode_no_operands(operands: &Vec<String>) -> (res: Result<(), DecodeError>)
    ensures
        ({
            let toks = operands.deep_view();
            if no_operands_ok(toks) {
                res == Ok::<(), DecodeError>(())
            } else {
                res is Err && no_operands_err(toks, res->Err_0)
            }
        }),
{
    if operands.len() > 0 {
        return Err(DecodeError::UnexpectedToken(operands[0].clone()));
    }
    Ok(())
}

/// Consumes exactly one register token.
pub fn decode_register_only(operands: &Vec<String>) -> (res: Result<Register, DecodeError>)
    ensures
        ({
            let toks = operands.deep_view();
            match reg_only_ok(toks) {
                Some(r) => res == Ok::<Register, DecodeError>(r),
                None => res is Err && reg_only_err(toks, res->Err_0),
            }
        }),
{
    if operands.len() < 1 {
        return Err(DecodeError::IncompleteInstruction);
    }
    if operands.len() > 1 {
        return Err(DecodeError::UnexpectedToken(operands[1].clone()));
    }
    match parse_register(operands[0].as_str()) {
        Some(r) => Ok(r),
        None => Err(DecodeError::InvalidRegister(operands[0].clone())),
    }
}

/// Consumes exactly one word-width operand token.
pub fn decode_word_operand_only(operands: &Vec<String>) -> (res: Result<
    Operand<Word>,
    DecodeError,
>)
    ensures
        ({
            let toks = operands.deep_view();
            match word_operand_only_ok(toks) {
                Some(o) => res == Ok::<Operand<Word>, DecodeError>(o),
                None => res is Err && word_operand_only_err(toks, res->Err_0),
            }
        }),
{
    if operands.len() < 1 {
        return Err(DecodeError::IncompleteInstruction);
    }
    if operands.len() > 1 {
        return Err(DecodeError::UnexpectedToken(operands[1].clone()));
    }
    match parse_word_operand(operands[0].as_str()) {
        Some(o) => Ok(o),
        None => Err(DecodeError::InvalidOperand(Width::Word, operands[0].clone())),
    }
}

/// Consumes exactly a destination register token and a byte-width operand
/// token.
pub fn decode_reg_and_byte_operand(operands: &Vec<String>) -> (res: Result<
    (Register, Operand<Byte>),
    DecodeError,
>)
    ensures
        ({
            let toks = operands.deep_view();
            match reg_byte_ok(toks) {
                Some(p) => res == Ok::<(Register, Operand<Byte>), DecodeError>(p),
                None => res is Err && reg_byte_err(toks, res->Err_0),
            }
        }),
{
    if operands.len() < 2 {
        return Err(DecodeError::IncompleteInstruction);
    }
    if operands.len() > 2 {
        return Err(DecodeError::UnexpectedToken(operands[2].clone()));
    }
    let register = match parse_register(operands[0].as_str()) {
        Some(r) => r,
        None => {
            return Err(DecodeError::InvalidRegister(operands[0].clone()));
        },
    };
    let operand = match parse_byte_operand(operands[1].as_str()) {
        Some(o) => o,
        None => {
            return Err(DecodeError::InvalidOperand(Width::Byte, operands[1].clone()));
        },
    };
    Ok((register, operand))
}

/// Consumes exactly a destination register token and a quarter-width operand
/// token.
pub fn decode_reg_and_quarter_operand(operands: &Vec<String>) -> (res: Result<
    (Register, Operand<Quarter>),
    DecodeError,
>)
    ensures
        ({
            let toks = operands.deep_view();
            match reg_quarter_ok(toks) {
                Some(p) => res == Ok::<(Register, Operand<Quarter>), DecodeError>(p),
                None => res is Err && reg_quarter_err(toks, res->Err_0),
            }
        }),
{
    if operands.len() < 2 {
        return Err(DecodeError::IncompleteInstruction);
    }
    if operands.len() > 2 {
        return Err(DecodeError::UnexpectedToken(operands[2].clone()));
    }
    let register = match parse_register(operands[0].as_str()) {
        Some(r) => r,
        None => {
            return Err(DecodeError::InvalidRegister(operands[0].clone()));
        },
    };
    let operand = match parse_quarter_operand(operands[1].as_str()) {
        Some(o) => o,
        None => {
            return Err(DecodeError::InvalidOperand(Width::Quarter, operands[1].clone()));
        },
    };
    Ok((register, operand))
}

/// Consumes exactly a destination register token and a half-width operand
/// token.
pub fn decode_reg_and_half_operand(operands: &Vec<String>) -> (res: Result<
    (Register, Operand<Half>),
    DecodeError,
>)
    ensures
        ({
            let toks = operands.deep_view();
            match reg_half_ok(toks) {
                Some(p) => res == Ok::<(Register, Operand<Half>), DecodeError>(p),
                None => res is Err && reg_half_err(toks, res->Err_0),
            }
        }),
{
    if operands.len() < 2 {
        return Err(DecodeError::IncompleteInstruction);
    }
    if operands.len() > 2 {
        return Err(DecodeError::UnexpectedToken(operands[2].clone()));
    }
    let register = match parse_register(operands[0].as_str()) {
        Some(r) => r,
        None => {
            return Err(DecodeError::InvalidRegister(operands[0].clone()));
        },
    };
    let operand = match parse_half_operand(operands[1].as_str()) {
        Some(o) => o,
        None => {
            return Err(DecodeError::InvalidOperand(Width::Half, operands[1].clone()));
        },
    };
    Ok((register, operand))
}

/// Consumes exactly a destination register token and a word-width operand
/// token.
pub fn decode_reg_and_word_operand(operands: &Vec<String>) -> (res: Result<
    (Register, Operand<Word>),
    DecodeError,
>)
    ensures
        ({
            let toks = operands.deep_view();
            match reg_word_ok(toks) {
                Some(p) => res == Ok::<(Register, Operand<Word>), DecodeError>(p),
                None => res is Err && reg_word_err(toks, res->Err_0),
            }
        }),
{
    if operands.len() < 2 {
        return Err(DecodeError::IncompleteInstruction);
    }
    if operands.len() > 2 {
        return Err(DecodeError::UnexpectedToken(operands[2].clone()));
    }
    let register = match parse_register(operands[0].as_str()) {
        Some(r) => r,
        None => {
            return Err(DecodeError::InvalidRegister(operands[0].clone()));
        },
    };
    let operand = match parse_word_operand(operands[1].as_str()) {
        Some(o) => o,
        None => {
            return Err(DecodeError::InvalidOperand(Width::Word, operands[1].clone()));
        },
    };
    Ok((register, operand))
}


/// The instruction a recognized opcode with well-shaped operand tokens
/// decodes to; `None` when the opcode is unknown or the tokens do not fit
/// its shape.
pub open spec fn spec_decode_ok(op: Seq<char>, toks: Seq<Seq<char>>) -> Option<Instruction> {
    if op == "stop"@ {
        if no_operands_ok(toks) {
            Some(Instruction::Stop)
        } else {
            None
        }
    } else if op == "return"@ {
        if no_operands_ok(toks) {
            Some(Instruction::Return)
        } else {
            None
        }
    } else if op == "call"@ {
        match word_operand_only_ok(toks) {
            Some(o) => Some(Instruction::Call(o)),
            None => None,
        }
    } else if op == "jump"@ {
        match word_operand_only_ok(toks) {
            Some(o) => Some(Instruction::Jump(o)),
            None => None,
        }
    } else if op == "print-register"@ {
        match reg_only_ok(toks) {
            Some(r) => Some(Instruction::PrintRegister(r)),
            None => None,
        }
    } else if op == "print-stack"@ {
        match word_operand_only_ok(toks) {
            Some(o) => Some(Instruction::PrintStack(o)),
            None => None,
        }
    } else if op == "set-byte"@ {
        match reg_byte_ok(toks) {
            Some(p) => Some(Instruction::SetReg(SetInstruction::Byte(p.0, p.1))),
            None => None,
        }
    } else if op == "set-quarter"@ {
        match reg_quarter_ok(toks) {
            Some(p) => Some(Instruction::SetReg(SetInstruction::Quarter(p.0, p.1))),
            None => None,
        }
    } else if op == "set-half"@ {
        match reg_half_ok(toks) {
            Some(p) => Some(Instruction::SetReg(SetInstruction::Half(p.0, p.1))),
            None => None,
        }
    } else if op == "set-word"@ {
        match reg_word_ok(toks) {
            Some(p) => Some(Instruction::SetReg(SetInstruction::Word(p.0, p.1))),
            None => None,
        }
    } else if op == "add-byte"@ {
        match reg_byte_ok(toks) {
            Some(p) => Some(Instruction::Addition(AddInstruction::Byte(p.0, p.1))),
            None => None,
        }
    } else if op == "add-quarter"@ {
        match reg_quarter_ok(toks) {
            Some(p) => Some(Instruction::Addition(AddInstruction::Quarter(p.0, p.1))),
            None => None,
        }
    } else if op == "add-half"@ {
        match reg_half_ok(toks) {
            Some(p) => Some(Instruction::Addition(AddInstruction::Half(p.0, p.1))),
            None => None,
        }
    } else if op == "add-word"@ {
        match reg_word_ok(toks) {
            Some(p) => Some(Instruction::Addition(AddInstruction::Word(p.0, p.1))),
            None => None,
        }
    } else if op == "sub-byte"@ {
        match reg_byte_ok(toks) {
            Some(p) => Some(Instruction::Subtraction(SubInstruction::Byte(p.0, p.1))),
            None => None,
        }
    } else if op == "sub-quarter"@ {
        match reg_quarter_ok(toks) {
            Some(p) => Some(Instruction::Subtraction(SubInstruction::Quarter(p.0, p.1))),
            None => None,
        }
    } else if op == "sub-half"@ {
        match reg_half_ok(toks) {
            Some(p) => Some(Instruction::Subtraction(SubInstruction::Half(p.0, p.1))),
            None => None,
        }
    } else if op == "sub-word"@ {
        match reg_word_ok(toks) {
            Some(p) => Some(Instruction::Subtraction(SubInstruction::Word(p.0, p.1))),
            None => None,
        }
    } else if op == "mul-byte"@ {
        match reg_byte_ok(toks) {
            Some(p) => Some(Instruction::Multiplication(MulInstruction::Byte(p.0, p.1))),
            None => None,
        }
    } else if op == "mul-quarter"@ {
        match reg_quarter_ok(toks) {
            Some(p) => Some(Instruction::Multiplication(MulInstruction::Quarter(p.0, p.1))),
            None => None,
        }
    } else if op == "mul-half"@ {
        match reg_half_ok(toks) {
            Some(p) => Some(Instruction::Multiplication(MulInstruction::Half(p.0, p.1))),
            None => None,
        }
    } else if op == "mul-word"@ {
        match reg_word_ok(toks) {
            Some(p) => Some(Instruction::Multiplication(MulInstruction::Word(p.0, p.1))),
            None => None,
        }
    } else if op == "div-byte"@ {
        match reg_byte_ok(toks) {
            Some(p) => Some(Instruction::Division(DivInstruction::Byte(p.0, p.1))),
            None => None,
        }
    } else if op == "div-quarter"@ {
        match reg_quarter_ok(toks) {
            Some(p) => Some(Instruction::Division(DivInstruction::Quarter(p.0, p.1))),
            None => None,
        }
    } else if op == "div-half"@ {
        match reg_half_ok(toks) {
            Some(p) => Some(Instruction::Division(DivInstruction::Half(p.0, p.1))),
            None => None,
        }
    } else if op == "div-word"@ {
        match reg_word_ok(toks) {
            Some(p) => Some(Instruction::Division(DivInstruction::Word(p.0, p.1))),
            None => None,
        }
    } else if op == "rem-byte"@ {
        match reg_byte_ok(toks) {
            Some(p) => Some(Instruction::Remainder(Remainder::Byte(p.0, p.1))),
            None => None,
        }
    } else if op == "rem-quarter"@ {
        match reg_quarter_ok(toks) {
            Some(p) => Some(Instruction::Remainder(Remainder::Quarter(p.0, p.1))),
            None => None,
        }
    } else if op == "rem-half"@ {
        match reg_half_ok(toks) {
            Some(p) => Some(Instruction::Remainder(Remainder::Half(p.0, p.1))),
            None => None,
        }
    } else if op == "rem-word"@ {
        match reg_word_ok(toks) {
            Some(p) => Some(Instruction::Remainder(Remainder::Word(p.0, p.1))),
            None => None,
        }
    } else if op == "and-byte"@ {
        match reg_byte_ok(toks) {
            Some(p) => Some(Instruction::And(AndInstruction::Byte(p.0, p.1))),
            None => None,
        }
    } else if op == "and-quarter"@ {
        match reg_quarter_ok(toks) {
            Some(p) => Some(Instruction::And(AndInstruction::Quarter(p.0, p.1))),
            None => None,
        }
    } else if op == "and-half"@ {
        match reg_half_ok(toks) {
            Some(p) => Some(Instruction::And(AndInstruction::Half(p.0, p.1))),
            None => None,
        }
    } else if op == "and-word"@ {
        match reg_word_ok(toks) {
            Some(p) => Some(Instruction::And(AndInstruction::Word(p.0, p.1))),
            None => None,
        }
    } else if op == "or-byte"@ {
        match reg_byte_ok(toks) {
            Some(p) => Some(Instruction::Or(OrInstruction::Byte(p.0, p.1))),
            None => None,
        }
    } else if op == "or-quarter"@ {
        match reg_quarter_ok(toks) {
            Some(p) => Some(Instruction::Or(OrInstruction::Quarter(p.0, p.1))),
            None => None,
        }
    } else if op == "or-half"@ {
        match reg_half_ok(toks) {
            Some(p) => Some(Instruction::Or(OrInstruction::Half(p.0, p.1))),
            None => None,
        }
    } else if op == "or-word"@ {
        match reg_word_ok(toks) {
            Some(p) => Some(Instruction::Or(OrInstruction::Word(p.0, p.1))),
            None => None,
        }
    } else if op == "xor-byte"@ {
        match reg_byte_ok(toks) {
            Some(p) => Some(Instruction::Xor(XorInstruction::Byte(p.0, p.1))),
            None => None,
        }
    } else if op == "xor-quarter"@ {
        match reg_quarter_ok(toks) {
            Some(p) => Some(Instruction::Xor(XorInstruction::Quarter(p.0, p.1))),
            None => None,
        }
    } else if op == "xor-half"@ {
        match reg_half_ok(toks) {
            Some(p) => Some(Instruction::Xor(XorInstruction::Half(p.0, p.1))),
            None => None,
        }
    } else if op == "xor-word"@ {
        match reg_word_ok(toks) {
            Some(p) => Some(Instruction::Xor(XorInstruction::Word(p.0, p.1))),
            None => None,
        }
    } else if op == "test-byte"@ {
        match reg_byte_ok(toks) {
            Some(p) => Some(Instruction::Test(TestInstruction::Byte(p.0, p.1))),
            None => None,
        }
    } else if op == "test-quarter"@ {
        match reg_quarter_ok(toks) {
            Some(p) => Some(Instruction::Test(TestInstruction::Quarter(p.0, p.1))),
            None => None,
        }
    } else if op == "test-half"@ {
        match reg_half_ok(toks) {
            Some(p) => Some(Instruction::Test(TestInstruction::Half(p.0, p.1))),
            None => None,
        }
    } else if op == "test-word"@ {
        match reg_word_ok(toks) {
            Some(p) => Some(Instruction::Test(TestInstruction::Word(p.0, p.1))),
            None => None,
        }
    } else if op == "compare-byte"@ {
        match reg_byte_ok(toks) {
            Some(p) => Some(Instruction::Compare(CompareInstruction::Byte(p.0, p.1))),
            None => None,
        }
    } else if op == "compare-quarter"@ {
        match reg_quarter_ok(toks) {
            Some(p) => Some(Instruction::Compare(CompareInstruction::Quarter(p.0, p.1))),
            None => None,
        }
    } else if op == "compare-half"@ {
        match reg_half_ok(toks) {
            Some(p) => Some(Instruction::Compare(CompareInstruction::Half(p.0, p.1))),
            None => None,
        }
    } else if op == "compare-word"@ {
        match reg_word_ok(toks) {
            Some(p) => Some(Instruction::Compare(CompareInstruction::Word(p.0, p.1))),
            None => None,
        }
    } else if op == "push-byte"@ {
        match reg_only_ok(toks) {
            Some(r) => Some(Instruction::Push(PushInstruction::Byte(r))),
            None => None,
        }
    } else if op == "push-quarter"@ {
        match reg_only_ok(toks) {
            Some(r) => Some(Instruction::Push(PushInstruction::Quarter(r))),
            None => None,
        }
    } else if op == "push-half"@ {
        match reg_only_ok(toks) {
            Some(r) => Some(Instruction::Push(PushInstruction::Half(r))),
            None => None,
        }
    } else if op == "push-word"@ {
        match reg_only_ok(toks) {
            Some(r) => Some(Instruction::Push(PushInstruction::Word(r))),
            None => None,
        }
    } else if op == "pop-byte"@ {
        match reg_only_ok(toks) {
            Some(r) => Some(Instruction::Pop(PopInstruction::Byte(r))),
            None => None,
        }
    } else if op == "pop-quarter"@ {
        match reg_only_ok(toks) {
            Some(r) => Some(Instruction::Pop(PopInstruction::Quarter(r))),
            None => None,
        }
    } else if op == "pop-half"@ {
        match reg_only_ok(toks) {
            Some(r) => Some(Instruction::Pop(PopInstruction::Half(r))),
            None => None,
        }
    } else if op == "pop-word"@ {
        match reg_only_ok(toks) {
            Some(r) => Some(Instruction::Pop(PopInstruction::Word(r))),
            None => None,
        }
    } else if op == "not-byte"@ {
        match reg_only_ok(toks) {
            Some(r) => Some(Instruction::Not(Not::Byte(r))),
            None => None,
        }
    } else if op == "not-quarter"@ {
        match reg_only_ok(toks) {
            Some(r) => Some(Instruction::Not(Not::Quarter(r))),
            None => None,
        }
    } else if op == "not-half"@ {
        match reg_only_ok(toks) {
            Some(r) => Some(Instruction::Not(Not::Half(r))),
            None => None,
        }
    } else if op == "not-word"@ {
        match reg_only_ok(toks) {
            Some(r) => Some(Instruction::Not(Not::Word(r))),
            None => None,
        }
    } else {
        None
    }
}

/// The decode error a failing line reports: the failing opcode's shape
/// error, or an unknown-opcode error carrying the opcode token.
pub open spec fn spec_decode_err(op: Seq<char>, toks: Seq<Seq<char>>, e: DecodeError) -> bool {
    if op == "stop"@ {
        no_operands_err(toks, e)
    } else if op == "return"@ {
        no_operands_err(toks, e)
    } else if op == "call"@ {
        word_operand_only_err(toks, e)
    } else if op == "jump"@ {
        word_operand_only_err(toks, e)
    } else if op == "print-register"@ {
        reg_only_err(toks, e)
    } else if op == "print-stack"@ {
        word_operand_only_err(toks, e)
    } else if op == "set-byte"@ {
        reg_byte_err(toks, e)
    } else if op == "set-quarter"@ {
        reg_quarter_err(toks, e)
    } else if op == "set-half"@ {
        reg_half_err(toks, e)
    } else if op == "set-word"@ {
        reg_word_err(toks, e)
    } else if op == "add-byte"@ {
        reg_byte_err(toks, e)
    } else if op == "add-quarter"@ {
        reg_quarter_err(toks, e)
    } else if op == "add-half"@ {
        reg_half_err(toks, e)
    } else if op == "add-word"@ {
        reg_word_err(toks, e)
    } else if op == "sub-byte"@ {
        reg_byte_err(toks, e)
    } else if op == "sub-quarter"@ {
        reg_quarter_err(toks, e)
    } else if op == "sub-half"@ {
        reg_half_err(toks, e)
    } else if op == "sub-word"@ {
        reg_word_err(toks, e)
    } else if op == "mul-byte"@ {
        reg_byte_err(toks, e)
    } else if op == "mul-quarter"@ {
        reg_quarter_err(toks, e)
    } else if op == "mul-half"@ {
        reg_half_err(toks, e)
    } else if op == "mul-word"@ {
        reg_word_err(toks, e)
    } else if op == "div-byte"@ {
        reg_byte_err(toks, e)
    } else if op == "div-quarter"@ {
        reg_quarter_err(toks, e)
    } else if op == "div-half"@ {
        reg_half_err(toks, e)
    } else if op == "div-word"@ {
        reg_word_err(toks, e)
    } else if op == "rem-byte"@ {
        reg_byte_err(toks, e)
    } else if op == "rem-quarter"@ {
        reg_quarter_err(toks, e)
    } else if op == "rem-half"@ {
        reg_half_err(toks, e)
    } else if op == "rem-word"@ {
        reg_word_err(toks, e)
    } else if op == "and-byte"@ {
        reg_byte_err(toks, e)
    } else if op == "and-quarter"@ {
        reg_quarter_err(toks, e)
    } else if op == "and-half"@ {
        reg_half_err(toks, e)
    } else if op == "and-word"@ {
        reg_word_err(toks, e)
    } else if op == "or-byte"@ {
        reg_byte_err(toks, e)
    } else if op == "or-quarter"@ {
        reg_quarter_err(toks, e)
    } else if op == "or-half"@ {
        reg_half_err(toks, e)
    } else if op == "or-word"@ {
        reg_word_err(toks, e)
    } else if op == "xor-byte"@ {
        reg_byte_err(toks, e)
    } else if op == "xor-quarter"@ {
        reg_quarter_err(toks, e)
    } else if op == "xor-half"@ {
        reg_half_err(toks, e)
    } else if op == "xor-word"@ {
        reg_word_err(toks, e)
    } else if op == "test-byte"@ {
        reg_byte_err(toks, e)
    } else if op == "test-quarter"@ {
        reg_quarter_err(toks, e)
    } else if op == "test-half"@ {
        reg_half_err(toks, e)
    } else if op == "test-word"@ {
        reg_word_err(toks, e)
    } else if op == "compare-byte"@ {
        reg_byte_err(toks, e)
    } else if op == "compare-quarter"@ {
        reg_quarter_err(toks, e)
    } else if op == "compare-half"@ {
        reg_half_err(toks, e)
    } else if op == "compare-word"@ {
        reg_word_err(toks, e)
    } else if op == "push-byte"@ {
        reg_only_err(toks, e)
    } else if op == "push-quarter"@ {
        reg_only_err(toks, e)
    } else if op == "push-half"@ {
        reg_only_err(toks, e)
    } else if op == "push-word"@ {
        reg_only_err(toks, e)
    } else if op == "pop-byte"@ {
        reg_only_err(toks, e)
    } else if op == "pop-quarter"@ {
        reg_only_err(toks, e)
    } else if op == "pop-half"@ {
        reg_only_err(toks, e)
    } else if op == "pop-word"@ {
        reg_only_err(toks, e)
    } else if op == "not-byte"@ {
        reg_only_err(toks, e)
    } else if op == "not-quarter"@ {
        reg_only_err(toks, e)
    } else if op == "not-half"@ {
        reg_only_err(toks, e)
    } else if op == "not-word"@ {
        reg_only_err(toks, e)
    } else {
        e is UnknownInstruction && e->UnknownInstruction_0@ == op
    }
}

/// Decodes one instruction line: the opcode token selects the decode
/// routine, which consumes the remaining whitespace-separated tokens and
/// produces a typed instruction or a decode failure naming the malformed
/// token. Decoding touches no machine state.
#[verifier::rlimit(100)]
pub fn decode(opcode: &str, operands: &Vec<String>) -> (res: Result<Instruction, DecodeError>)
    ensures
        ({
            let toks = operands.deep_view();
            match spec_decode_ok(opcode@, toks) {
                Some(i) => res == Ok::<Instruction, DecodeError>(i),
                None => res is Err && spec_decode_err(opcode@, toks, res->Err_0),
            }
        }),
{
    if str_eq(opcode, "stop") {
        decode_no_operands(operands)?;
        Ok(Instruction::Stop)
    } else if str_eq(opcode, "return") {
        decode_no_operands(operands)?;
        Ok(Instruction::Return)
    } else if str_eq(opcode, "call") {
        let o = decode_word_operand_only(operands)?;
        Ok(Instruction::Call(o))
    } else if str_eq(opcode, "jump") {
        let o = decode_word_operand_only(operands)?;
        Ok(Instruction::Jump(o))
    } else if str_eq(opcode, "print-register") {
        let r = decode_register_only(operands)?;
        Ok(Instruction::PrintRegister(r))
    } else if str_eq(opcode, "print-stack") {
        let o = decode_word_operand_only(operands)?;
        Ok(Instruction::PrintStack(o))
    } else if str_eq(opcode, "set-byte") {
        let p = decode_reg_and_byte_operand(operands)?;
        Ok(Instruction::SetReg(SetInstruction::Byte(p.0, p.1)))
    } else if str_eq(opcode, "set-quarter") {
        let p = decode_reg_and_quarter_operand(operands)?;
        Ok(Instruction::SetReg(SetInstruction::Quarter(p.0, p.1)))
    } else if str_eq(opcode, "set-half") {
        let p = decode_reg_and_half_operand(operands)?;
        Ok(Instruction::SetReg(SetInstruction::Half(p.0, p.1)))
    } else if str_eq(opcode, "set-word") {
        let p = decode_reg_and_word_operand(operands)?;
        Ok(Instruction::SetReg(SetInstruction::Word(p.0, p.1)))
    } else if str_eq(opcode, "add-byte") {
        let p = decode_reg_and_byte_operand(operands)?;
        Ok(Instruction::Addition(AddInstruction::Byte(p.0, p.1)))
    } else if str_eq(opcode, "add-quarter") {
        let p = decode_reg_and_quarter_operand(operands)?;
        Ok(Instruction::Addition(AddInstruction::Quarter(p.0, p.1)))
    } else if str_eq(opcode, "add-half") {
        let p = decode_reg_and_half_operand(operands)?;
        Ok(Instruction::Addition(AddInstruction::Half(p.0, p.1)))
    } else if str_eq(opcode, "add-word") {
        let p = decode_reg_and_word_operand(operands)?;
        Ok(Instruction::Addition(AddInstruction::Word(p.0, p.1)))
    } else if str_eq(opcode, "sub-byte") {
        let p = decode_reg_and_byte_operand(operands)?;
        Ok(Instruction::Subtraction(SubInstruction::Byte(p.0, p.1)))
    } else if str_eq(opcode, "sub-quarter") {
        let p = decode_reg_and_quarter_operand(operands)?;
        Ok(Instruction::Subtraction(SubInstruction::Quarter(p.0, p.1)))
    } else if str_eq(opcode, "sub-half") {
        let p = decode_reg_and_half_operand(operands)?;
        Ok(Instruction::Subtraction(SubInstruction::Half(p.0, p.1)))
    } else if str_eq(opcode, "sub-word") {
        let p = decode_reg_and_word_operand(operands)?;
        Ok(Instruction::Subtraction(SubInstruction::Word(p.0, p.1)))
    } else if str_eq(opcode, "mul-byte") {
        MulDecoder::decode_mul_byte(operands)
    } else if str_eq(opcode, "mul-quarter") {
        MulDecoder::decode_mul_quarter(operands)
    } else if str_eq(opcode, "mul-half") {
        MulDecoder::decode_mul_half(operands)
    } else if str_eq(opcode, "mul-word") {
        MulDecoder::decode_mul_word(operands)
    } else if str_eq(opcode, "div-byte") {
        let p = decode_reg_and_byte_operand(operands)?;
        Ok(Instruction::Division(DivInstruction::Byte(p.0, p.1)))
    } else if str_eq(opcode, "div-quarter") {
        let p = decode_reg_and_quarter_operand(operands)?;
        Ok(Instruction::Division(DivInstruction::Quarter(p.0, p.1)))
    } else if str_eq(opcode, "div-half") {
        let p = decode_reg_and_half_operand(operands)?;
        Ok(Instruction::Division(DivInstruction::Half(p.0, p.1)))
    } else if str_eq(opcode, "div-word") {
        let p = decode_reg_and_word_operand(operands)?;
        Ok(Instruction::Division(DivInstruction::Word(p.0, p.1)))
    } else if str_eq(opcode, "rem-byte") {
        let p = decode_reg_and_byte_operand(operands)?;
        Ok(Instruction::Remainder(Remainder::Byte(p.0, p.1)))
    } else if str_eq(opcode, "rem-quarter") {
        let p = decode_reg_and_quarter_operand(operands)?;
        Ok(Instruction::Remainder(Remainder::Quarter(p.0, p.1)))
    } else if str_eq(opcode, "rem-half") {
        let p = decode_reg_and_half_operand(operands)?;
        Ok(Instruction::Remainder(Remainder::Half(p.0, p.1)))
    } else if str_eq(opcode, "rem-word") {
        let p = decode_reg_and_word_operand(operands)?;
        Ok(Instruction::Remainder(Remainder::Word(p.0, p.1)))
    } else if str_eq(opcode, "and-byte") {
        let p = decode_reg_and_byte_operand(operands)?;
        Ok(Instruction::And(AndInstruction::Byte(p.0, p.1)))
    } else if str_eq(opcode, "and-quarter") {
        let p = decode_reg_and_quarter_operand(operands)?;
        Ok(Instruction::And(AndInstruction::Quarter(p.0, p.1)))
    } else if str_eq(opcode, "and-half") {
        let p = decode_reg_and_half_operand(operands)?;
        Ok(Instruction::And(AndInstruction::Half(p.0, p.1)))
    } else if str_eq(opcode, "and-word") {
        let p = decode_reg_and_word_operand(operands)?;
        Ok(Instruction::And(AndInstruction::Word(p.0, p.1)))
    } else if str_eq(opcode, "or-byte") {
        let p = decode_reg_and_byte_operand(operands)?;
        Ok(Instruction::Or(OrInstruction::Byte(p.0, p.1)))
    } else if str_eq(opcode, "or-quarter") {
        let p = decode_reg_and_quarter_operand(operands)?;
        Ok(Instruction::Or(OrInstruction::Quarter(p.0, p.1)))
    } else if str_eq(opcode, "or-half") {
        let p = decode_reg_and_half_operand(operands)?;
        Ok(Instruction::Or(OrInstruction::Half(p.0, p.1)))
    } else if str_eq(opcode, "or-word") {
        let p = decode_reg_and_word_operand(operands)?;
        Ok(Instruction::Or(OrInstruction::Word(p.0, p.1)))
    } else if str_eq(opcode, "xor-byte") {
        let p = decode_reg_and_byte_operand(operands)?;
        Ok(Instruction::Xor(XorInstruction::Byte(p.0, p.1)))
    } else if str_eq(opcode, "xor-quarter") {
        let p = decode_reg_and_quarter_operand(operands)?;
        Ok(Instruction::Xor(XorInstruction::Quarter(p.0, p.1)))
    } else if str_eq(opcode, "xor-half") {
        let p = decode_reg_and_half_operand(operands)?;
        Ok(Instruction::Xor(XorInstruction::Half(p.0, p.1)))
    } else if str_eq(opcode, "xor-word") {
        let p = decode_reg_and_word_operand(operands)?;
        Ok(Instruction::Xor(XorInstruction::Word(p.0, p.1)))
    } else if str_eq(opcode, "test-byte") {
        let p = decode_reg_and_byte_operand(operands)?;
        Ok(Instruction::Test(TestInstruction::Byte(p.0, p.1)))
    } else if str_eq(opcode, "test-quarter") {
        let p = decode_reg_and_quarter_operand(operands)?;
        Ok(Instruction::Test(TestInstruction::Quarter(p.0, p.1)))
    } else if str_eq(opcode, "test-half") {
        let p = decode_reg_and_half_operand(operands)?;
        Ok(Instruction::Test(TestInstruction::Half(p.0, p.1)))
    } else if str_eq(opcode, "test-word") {
        let p = decode_reg_and_word_operand(operands)?;
        Ok(Instruction::Test(TestInstruction::Word(p.0, p.1)))
    } else if str_eq(opcode, "compare-byte") {
        let p = decode_reg_and_byte_operand(operands)?;
        Ok(Instruction::Compare(CompareInstruction::Byte(p.0, p.1)))
    } else if str_eq(opcode, "compare-quarter") {
        let p = decode_reg_and_quarter_operand(operands)?;
        Ok(Instruction::Compare(CompareInstruction::Quarter(p.0, p.1)))
    } else if str_eq(opcode, "compare-half") {
        let p = decode_reg_and_half_operand(operands)?;
        Ok(Instruction::Compare(CompareInstruction::Half(p.0, p.1)))
    } else if str_eq(opcode, "compare-word") {
        let p = decode_reg_and_word_operand(operands)?;
        Ok(Instruction::Compare(CompareInstruction::Word(p.0, p.1)))
    } else if str_eq(opcode, "push-byte") {
        let r = decode_register_only(operands)?;
        Ok(Instruction::Push(PushInstruction::Byte(r)))
    } else if str_eq(opcode, "push-quarter") {
        let r = decode_register_only(operands)?;
        Ok(Instruction::Push(PushInstruction::Quarter(r)))
    } else if str_eq(opcode, "push-half") {
        let r = decode_register_only(operands)?;
        Ok(Instruction::Push(PushInstruction::Half(r)))
    } else if str_eq(opcode, "push-word") {
        let r = decode_register_only(operands)?;
        Ok(Instruction::Push(PushInstruction::Word(r)))
    } else if str_eq(opcode, "pop-byte") {
        let r = decode_register_only(operands)?;
        Ok(Instruction::Pop(PopInstruction::Byte(r)))
    } else if str_eq(opcode, "pop-quarter") {
        let r = decode_register_only(operands)?;
        Ok(Instruction::Pop(PopInstruction::Quarter(r)))
    } else if str_eq(opcode, "pop-half") {
        let r = decode_register_only(operands)?;
        Ok(Instruction::Pop(PopInstruction::Half(r)))
    } else if str_eq(opcode, "pop-word") {
        let r = decode_register_only(operands)?;
        Ok(Instruction::Pop(PopInstruction::Word(r)))
    } else if str_eq(opcode, "not-byte") {
        let r = decode_register_only(operands)?;
        Ok(Instruction::Not(Not::Byte(r)))
    } else if str_eq(opcode, "not-quarter") {
        let r = decode_register_only(operands)?;
        Ok(Instruction::Not(Not::Quarter(r)))
    } else if str_eq(opcode, "not-half") {
        let r = decode_register_only(operands)?;
        Ok(Instruction::Not(Not::Half(r)))
    } else if str_eq(opcode, "not-word") {
        let r = decode_register_only(operands)?;
        Ok(Instruction::Not(Not::Word(r)))
    } else {
        Err(DecodeError::UnknownInstruction(opcode.to_owned()))
    }
}

} // verus!
