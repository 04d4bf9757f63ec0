//! The tagged operand model: a register reference resolved at execute time,
//! or an immediate literal embedded in the decoded instruction.

use vstd::prelude::*;

use crate::register::Register;

verus! {

/// An operand of an instruction at width `T`: either a reference to a
/// register, read at the instruction's width when the instruction executes,
/// or an immediate literal carried in the instruction itself. Operands are
/// immutable once decoded.
#[derive(Clone, Copy, Debug, PartialEq, Eq)]
pub enum Operand<T> {
    Register(Register),
    Immediate(T),
}

} // verus!
