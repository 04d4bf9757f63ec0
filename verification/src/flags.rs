//! The three condition bits, recomputed from every arithmetic or logic
//! result and left untouched by all other instructions.

use vstd::prelude::*;

use crate::constant::{Byte, Half, Quarter, Word};

verus! {

/// The condition state: `zero` holds when the result was zero, `sign` when
/// the most significant bit of the result at its operation width was set,
/// `overflow` when the width-specific operation reported overflow.
#[derive(Clone, Copy, Debug, PartialEq, Eq, Structural)]
pub struct Flags {
    pub zero: bool,
    pub overflow: bool,
    pub sign: bool,
}

/// The flag state an 8-bit result `r` with overflow indicator `o` produces.
pub open spec fn spec_flags_from_byte(r: Byte, o: bool) -> Flags {
    Flags { zero: r == 0, overflow: o, sign: r >= 0x80 }
}

/// The flag state a 16-bit result `r` with overflow indicator `o` produces.
pub open spec fn spec_flags_from_quarter(r: Quarter, o: bool) -> Flags {
    Flags { zero: r == 0, overflow: o, sign: r >= 0x8000 }
}

/// The flag state a 32-bit result `r` with overflow indicator `o` produces.
pub open spec fn spec_flags_from_half(r: Half, o: bool) -> Flags {
    Flags { zero: r == 0, overflow: o, sign: r >= 0x8000_0000 }
}

/// The flag state a 64-bit result `r` with overflow indicator `o` produces.
pub open spec fn spec_flags_from_word(r: Word, o: bool) -> Flags {
    Flags { zero: r == 0, overflow: o, sign: r >= 0x8000_0000_0000_0000 }
}

impl Flags {
    /// All three bits cleared, the state of a fresh machine.
    pub fn new() -> (f: Flags)
        ensures
            f == (Flags { zero: false, overflow: false, sign: false }),
    {
        Flags { zero: false, overflow: false, sign: false }
    }

    pub fn set_from_byte(&mut self, result: Byte, overflow: bool)
        ensures
            *final(self) == spec_flags_from_byte(result, overflow),
    {
        self.zero = result == 0;
        self.overflow = overflow;
        self.sign = result >= 0x80;
    }

    pub fn set_from_quarter(&mut self, result: Quarter, overflow: bool)
        ensures
            *final(self) == spec_flags_from_quarter(result, overflow),
    {
        self.zero = result == 0;
        self.overflow = overflow;
        self.sign = result >= 0x8000;
    }

    pub fn set_from_half(&mut self, result: Half, overflow: bool)
        ensures
            *final(self) == spec_flags_from_half(result, overflow),
    {
        self.zero = result == 0;
        self.overflow = overflow;
        self.sign = result >= 0x8000_0000;
    }

    pub fn set_from_word(&mut self, result: Word, overflow: bool)
        ensures
            *final(self) == spec_flags_from_word(result, overflow),
    {
        self.zero = result == 0;
        self.overflow = overflow;
        self.sign = result >= 0x8000_0000_0000_0000;
    }
}

} // verus!
