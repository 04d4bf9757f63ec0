//! The unary bitwise-inversion instruction.

use vstd::prelude::*;

use crate::register::Register;

verus! {

/// Bitwise inversion of a register's value at one of the four widths.
#[derive(Clone, Copy, Debug, PartialEq, Eq)]
pub enum Not {
    Byte(Register),
    Quarter(Register),
    Half(Register),
    Word(Register),
}

} // verus!
