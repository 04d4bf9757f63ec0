//! Central constants and type aliases of the virtual processor.

use vstd::prelude::*;

verus! {

/// An 8-bit operand.
pub type Byte = u8;

/// A 16-bit operand.
pub type Quarter = u16;

/// A 32-bit operand.
pub type Half = u32;

/// A 64-bit operand, the full size of a register cell.
pub type Word = u64;

/// The number of register cells in the register file.
pub const REGISTER_AMOUNT: usize = 7;

/// The size of the stack in bytes: four mebibytes.
pub const STACK_SIZE: usize = 4 * 1024 * 1024;

/// The operation width of an instruction: how many low-order bytes of a
/// register cell an operation reads and writes.
#[derive(Clone, Copy, Debug, PartialEq, Eq, Structural)]
pub enum Width {
    Byte,
    Quarter,
    Half,
    Word,
}

} // verus!
