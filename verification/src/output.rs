//! Events for the external output collaborator. The machine never formats
//! or writes anything itself: the print instructions and the instruction
//! count report append plain events to a queue that the embedder drains
//! and renders.

use vstd::prelude::*;

use crate::constant::Word;
use crate::register::Register;

verus! {

/// One pending item of output.
#[derive(Clone, Debug, PartialEq, Eq)]
pub enum OutputEvent {
    /// A register and its full 64-bit value at the time of the print.
    Register(Register, Word),
    /// The bytes between the bottom of the requested window and the stack
    /// pointer at the time of the print.
    Stack(Vec<u8>),
    /// The number of instructions executed, reported when the machine
    /// stops with reporting enabled.
    InstructionsExecuted(Word),
}

} // verus!
