//! The two disjoint failure taxonomies: decode failures and execute
//! failures. Both are fatal to the current run.

use vstd::prelude::*;

use crate::constant::{Width, Word};

verus! {

/// A failure of the decoder. Each variant carries the offending token, so a
/// reported error identifies what to fix in the source line.
#[derive(Clone, Debug, PartialEq, Eq)]
pub enum DecodeError {
    /// The opcode token names no known instruction.
    UnknownInstruction(String),
    /// The line ended before all required operand tokens were supplied.
    IncompleteInstruction,
    /// A token remained after the instruction's last required operand.
    UnexpectedToken(String),
    /// A destination token that names no register.
    InvalidRegister(String),
    /// An operand token that names neither a register nor a numeric literal
    /// in range for the attempted width.
    InvalidOperand(Width, String),
}

/// A failure of the executor. Machine state after a failed instruction is
/// left exactly as it was before the instruction.
#[derive(Clone, Copy, Debug, PartialEq, Eq, Structural)]
pub enum ExecuteError {
    /// A division or remainder instruction whose resolved divisor is zero.
    DivideByZero,
    /// A runtime-computed destination id that names no register in the
    /// closed destination set; carries the offending id.
    InvalidRegisterCast(Word),
    /// A push would grow the stack past its capacity, or the stack pointer
    /// stands beyond the capacity.
    StackOverflow,
    /// A pop or return would retreat the stack pointer below zero.
    StackUnderflow,
}

/// A failure of the fetch-decode-execute cycle: the stage that failed, with
/// its error.
#[derive(Clone, Debug, PartialEq, Eq)]
pub enum RunError {
    Decode(DecodeError),
    Execute(ExecuteError),
}

} // verus!
