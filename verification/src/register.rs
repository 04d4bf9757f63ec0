//! The closed set of register identifiers.

use vstd::prelude::*;

use crate::constant::Word;
use crate::error::ExecuteError;

verus! {

/// A register identifier: four general-purpose registers, the stack pointer,
/// and the two transient parameter registers used by the staged execution
/// scheme to carry a destination id and an operand value between decode and
/// execute.
#[derive(Clone, Copy, Debug, PartialEq, Eq, Structural)]
pub enum Register {
    A,
    B,
    C,
    D,
    SP,
    P1,
    P2,
}

/// The identifiers that a runtime-computed destination id may name: the
/// general-purpose registers and the stack pointer. The transient parameter
/// registers are plumbing of the staged scheme and can never be a
/// destination.
pub open spec fn spec_register_from_word(w: Word) -> Option<Register> {
    if w == 0 {
        Some(Register::A)
    } else if w == 1 {
        Some(Register::B)
    } else if w == 2 {
        Some(Register::C)
    } else if w == 3 {
        Some(Register::D)
    } else if w == 4 {
        Some(Register::SP)
    } else {
        None
    }
}

impl Register {
    /// The index of this register's cell in the register file.
    pub open spec fn spec_index(self) -> int {
        match self {
            Register::A => 0,
            Register::B => 1,
            Register::C => 2,
            Register::D => 3,
            Register::SP => 4,
            Register::P1 => 5,
            Register::P2 => 6,
        }
    }

    /// The index of this register's cell in the register file.
    pub fn index(self) -> (i: usize)
        ensures
            i == self.spec_index(),
            i < crate::constant::REGISTER_AMOUNT,
    {
        match self {
            Register::A => 0,
            Register::B => 1,
            Register::C => 2,
            Register::D => 3,
            Register::SP => 4,
            Register::P1 => 5,
            Register::P2 => 6,
        }
    }

    /// The numeric id of this register, as a runtime value.
    pub fn as_word(self) -> (w: Word)
        ensures
            w == self.spec_index(),
    {
        match self {
            Register::A => 0,
            Register::B => 1,
            Register::C => 2,
            Register::D => 3,
            Register::SP => 4,
            Register::P1 => 5,
            Register::P2 => 6,
        }
    }

    /// Validates a runtime-computed destination id. An id outside the closed
    /// destination set fails with `InvalidRegisterCast` carrying the id.
    pub fn try_from(value: Word) -> (r: Result<Register, ExecuteError>)
        ensures
            match spec_register_from_word(value) {
                Some(reg) => r == Ok::<Register, ExecuteError>(reg),
                None => r == Err::<Register, ExecuteError>(
                    ExecuteError::InvalidRegisterCast(value),
                ),
            },
    {
        if value == 0 {
            Ok(Register::A)
        } else if value == 1 {
            Ok(Register::B)
        } else if value == 2 {
            Ok(Register::C)
        } else if value == 3 {
            Ok(Register::D)
        } else if value == 4 {
            Ok(Register::SP)
        } else {
            Err(ExecuteError::InvalidRegisterCast(value))
        }
    }
}

} // verus!
