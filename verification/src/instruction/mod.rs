//! The typed instruction set: a tagged union over opcodes, each arithmetic
//! or logic opcode carrying a nested width tag with its destination
//! register and operand. Instructions are immutable: constructed once by
//! the decoder, consumed once by the executor.

use vstd::prelude::*;

use crate::constant::{Byte, Half, Quarter, Word};
use crate::operand::Operand;
use crate::register::Register;

pub mod not;

pub use not::Not;

verus! {

/// Moves a value into a destination register without touching the flags.
#[derive(Clone, Copy, Debug, PartialEq, Eq)]
pub enum SetInstruction {
    Byte(Register, Operand<Byte>),
    Quarter(Register, Operand<Quarter>),
    Half(Register, Operand<Half>),
    Word(Register, Operand<Word>),
}

/// Wrapping addition with an overflow indicator.
#[derive(Clone, Copy, Debug, PartialEq, Eq)]
pub enum AddInstruction {
    Byte(Register, Operand<Byte>),
    Quarter(Register, Operand<Quarter>),
    Half(Register, Operand<Half>),
    Word(Register, Operand<Word>),
}

/// Wrapping subtraction with an overflow indicator.
#[derive(Clone, Copy, Debug, PartialEq, Eq)]
pub enum SubInstruction {
    Byte(Register, Operand<Byte>),
    Quarter(Register, Operand<Quarter>),
    Half(Register, Operand<Half>),
    Word(Register, Operand<Word>),
}

/// Wrapping multiplication with an overflow indicator.
#[derive(Clone, Copy, Debug, PartialEq, Eq)]
pub enum MulInstruction {
    Byte(Register, Operand<Byte>),
    Quarter(Register, Operand<Quarter>),
    Half(Register, Operand<Half>),
    Word(Register, Operand<Word>),
}

/// Unsigned division; a zero divisor is a fatal execution failure.
#[derive(Clone, Copy, Debug, PartialEq, Eq)]
pub enum DivInstruction {
    Byte(Register, Operand<Byte>),
    Quarter(Register, Operand<Quarter>),
    Half(Register, Operand<Half>),
    Word(Register, Operand<Word>),
}

/// Unsigned remainder; a zero divisor is a fatal execution failure.
#[derive(Clone, Copy, Debug, PartialEq, Eq)]
pub enum Remainder {
    Byte(Register, Operand<Byte>),
    Quarter(Register, Operand<Quarter>),
    Half(Register, Operand<Half>),
    Word(Register, Operand<Word>),
}

/// Pushes a register's value, at the given width, onto the stack.
#[derive(Clone, Copy, Debug, PartialEq, Eq)]
pub enum PushInstruction {
    Byte(Register),
    Quarter(Register),
    Half(Register),
    Word(Register),
}

/// Pops a value of the given width off the stack into a register.
#[derive(Clone, Copy, Debug, PartialEq, Eq)]
pub enum PopInstruction {
    Byte(Register),
    Quarter(Register),
    Half(Register),
    Word(Register),
}

/// Bitwise conjunction.
#[derive(Clone, Copy, Debug, PartialEq, Eq)]
pub enum AndInstruction {
    Byte(Register, Operand<Byte>),
    Quarter(Register, Operand<Quarter>),
    Half(Register, Operand<Half>),
    Word(Register, Operand<Word>),
}

/// Bitwise disjunction.
#[derive(Clone, Copy, Debug, PartialEq, Eq)]
pub enum OrInstruction {
    Byte(Register, Operand<Byte>),
    Quarter(Register, Operand<Quarter>),
    Half(Register, Operand<Half>),
    Word(Register, Operand<Word>),
}

/// Bitwise exclusive disjunction.
#[derive(Clone, Copy, Debug, PartialEq, Eq)]
pub enum XorInstruction {
    Byte(Register, Operand<Byte>),
    Quarter(Register, Operand<Quarter>),
    Half(Register, Operand<Half>),
    Word(Register, Operand<Word>),
}

/// Computes the flags exactly as the conjunction would, but discards the
/// result: registers are unmodified.
#[derive(Clone, Copy, Debug, PartialEq, Eq)]
pub enum TestInstruction {
    Byte(Register, Operand<Byte>),
    Quarter(Register, Operand<Quarter>),
    Half(Register, Operand<Half>),
    Word(Register, Operand<Word>),
}

/// Computes the flags exactly as the subtraction would, but discards the
/// result: registers are unmodified.
#[derive(Clone, Copy, Debug, PartialEq, Eq)]
pub enum CompareInstruction {
    Byte(Register, Operand<Byte>),
    Quarter(Register, Operand<Quarter>),
    Half(Register, Operand<Half>),
    Word(Register, Operand<Word>),
}

/// A decoded instruction, ready for the executor.
#[derive(Clone, Copy, Debug, PartialEq, Eq)]
pub enum Instruction {
    Stop,
    SetReg(SetInstruction),
    Addition(AddInstruction),
    Subtraction(SubInstruction),
    Multiplication(MulInstruction),
    Division(DivInstruction),
    Remainder(Remainder),
    Push(PushInstruction),
    Pop(PopInstruction),
    Call(Operand<Word>),
    Return,
    And(AndInstruction),
    Or(OrInstruction),
    Xor(XorInstruction),
    Not(Not),
    Test(TestInstruction),
    Compare(CompareInstruction),
    Jump(Operand<Word>),
    PrintRegister(Register),
    PrintStack(Operand<Word>),
}

impl Instruction {
    /// Whether executing this instruction leaves the program counter aimed
    /// at the next instruction to run, so that the driving loop must not
    /// advance it further. A return also assigns the program counter, but
    /// it assigns the saved call-site index, which the driving loop then
    /// advances past so that control resumes just after the call.
    pub open spec fn spec_redirects_pc(self) -> bool {
        self is Jump || self is Call
    }

    /// Whether executing this instruction leaves the program counter aimed
    /// at the next instruction to run.
    pub fn redirects_pc(&self) -> (r: bool)
        ensures
            r == self.spec_redirects_pc(),
    {
        match self {
            Instruction::Jump(_) => true,
            Instruction::Call(_) => true,
            _ => false,
        }
    }
}

} // verus!
