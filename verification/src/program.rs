//! One instruction line, as the external loader hands it over: the
//! opcode token and the remaining whitespace-separated operand tokens.
//! The loader owns comment stripping and line splitting; the machine owns
//! everything from these tokens on.

use vstd::prelude::*;

verus! {

/// A tokenized instruction line.
#[derive(Clone, Debug, PartialEq, Eq)]
pub struct ProgramLine {
    pub opcode: String,
    pub operands: Vec<String>,
}

} // verus!
