//! The decode routines of the multiplication opcodes, one per width.

use vstd::prelude::*;

use crate::decode::{
    decode_reg_and_byte_operand, decode_reg_and_half_operand, decode_reg_and_quarter_operand,
    decode_reg_and_word_operand, reg_byte_err, reg_byte_ok, reg_half_err, reg_half_ok,
    reg_quarter_err, reg_quarter_ok, reg_word_err, reg_word_ok,
};
use crate::error::DecodeError;
use crate::instruction::{Instruction, MulInstruction};

verus! {

/// The multiplication decode routines the opcode table points at.
pub struct MulDecoder;

impl MulDecoder {
    pub fn decode_mul_byte(operands: &Vec<String>) -> (res: Result<
        Instruction,
        DecodeError,
    >)
        ensures
            ({
                let toks = operands.deep_view();
                match reg_byte_ok(toks) {
                    Some(p) => res == Ok::<Instruction, DecodeError>(
                        Instruction::Multiplication(MulInstruction::Byte(p.0, p.1)),
                    ),
                    None => res is Err && reg_byte_err(toks, res->Err_0),
                }
            }),
    {
        let (register, operand) = decode_reg_and_byte_operand(operands)?;
        let instruction = MulInstruction::Byte(register, operand);

        Ok(Instruction::Multiplication(instruction))
    }

    pub fn decode_mul_quarter(operands: &Vec<String>) -> (res: Result<
        Instruction,
        DecodeError,
    >)
        ensures
            ({
                let toks = operands.deep_view();
                match reg_quarter_ok(toks) {
                    Some(p) => res == Ok::<Instruction, DecodeError>(
                        Instruction::Multiplication(MulInstruction::Quarter(p.0, p.1)),
                    ),
                    None => res is Err && reg_quarter_err(toks, res->Err_0),
                }
            }),
    {
        let (register, operand) = decode_reg_and_quarter_operand(operands)?;
        let instruction = MulInstruction::Quarter(register, operand);

        Ok(Instruction::Multiplication(instruction))
    }

    pub fn decode_mul_half(operands: &Vec<String>) -> (res: Result<
        Instruction,
        DecodeError,
    >)
        ensures
            ({
                let toks = operands.deep_view();
                match reg_half_ok(toks) {
                    Some(p) => res == Ok::<Instruction, DecodeError>(
                        Instruction::Multiplication(MulInstruction::Half(p.0, p.1)),
                    ),
                    None => res is Err && reg_half_err(toks, res->Err_0),
                }
            }),
    {
        let (register, operand) = decode_reg_and_half_operand(operands)?;
        let instruction = MulInstruction::Half(register, operand);

        Ok(Instruction::Multiplication(instruction))
    }

    pub fn decode_mul_word(operands: &Vec<String>) -> (res: Result<
        Instruction,
        DecodeError,
    >)
        ensures
            ({
                let toks = operands.deep_view();
                match reg_word_ok(toks) {
                    Some(p) => res == Ok::<Instruction, DecodeError>(
                        Instruction::Multiplication(MulInstruction::Word(p.0, p.1)),
                    ),
                    None => res is Err && reg_word_err(toks, res->Err_0),
                }
            }),
    {
        let (register, operand) = decode_reg_and_word_operand(operands)?;
        let instruction = MulInstruction::Word(register, operand);

        Ok(Instruction::Multiplication(instruction))
    }
}

} // verus!
