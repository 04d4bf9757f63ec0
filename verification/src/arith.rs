//! The width-specific arithmetic model: for each of the four widths, the
//! wrapped result and the overflow indicator of every arithmetic operation,
//! as spec functions shared by the executor's contracts.

use vstd::prelude::*;

use crate::constant::{Byte, Half, Quarter, Word};

verus! {

pub open spec fn add_result_byte(a: Byte, b: Byte) -> Byte {
    if a + b > Byte::MAX {
        (a + b - 0x100) as Byte
    } else {
        (a + b) as Byte
    }
}

pub open spec fn add_overflows_byte(a: Byte, b: Byte) -> bool {
    a + b > Byte::MAX
}

pub open spec fn add_result_quarter(a: Quarter, b: Quarter) -> Quarter {
    if a + b > Quarter::MAX {
        (a + b - 0x1_0000) as Quarter
    } else {
        (a + b) as Quarter
    }
}

pub open spec fn add_overflows_quarter(a: Quarter, b: Quarter) -> bool {
    a + b > Quarter::MAX
}

pub open spec fn add_result_half(a: Half, b: Half) -> Half {
    if a + b > Half::MAX {
        (a + b - 0x1_0000_0000) as Half
    } else {
        (a + b) as Half
    }
}

pub open spec fn add_overflows_half(a: Half, b: Half) -> bool {
    a + b > Half::MAX
}

pub open spec fn add_result_word(a: Word, b: Word) -> Word {
    if a + b > Word::MAX {
        (a + b - 0x1_0000_0000_0000_0000) as Word
    } else {
        (a + b) as Word
    }
}

pub open spec fn add_overflows_word(a: Word, b: Word) -> bool {
    a + b > Word::MAX
}

pub open spec fn sub_result_byte(a: Byte, b: Byte) -> Byte {
    if a - b < 0 {
        (a - b + 0x100) as Byte
    } else {
        (a - b) as Byte
    }
}

pub open spec fn sub_result_quarter(a: Quarter, b: Quarter) -> Quarter {
    if a - b < 0 {
        (a - b + 0x1_0000) as Quarter
    } else {
        (a - b) as Quarter
    }
}

pub open spec fn sub_result_half(a: Half, b: Half) -> Half {
    if a - b < 0 {
        (a - b + 0x1_0000_0000) as Half
    } else {
        (a - b) as Half
    }
}

pub open spec fn sub_result_word(a: Word, b: Word) -> Word {
    if a - b < 0 {
        (a - b + 0x1_0000_0000_0000_0000) as Word
    } else {
        (a - b) as Word
    }
}

/// Unsigned subtraction overflows exactly when the subtrahend exceeds the
/// minuend; one predicate serves every width.
pub open spec fn sub_overflows(a: int, b: int) -> bool {
    a < b
}

pub open spec fn mul_result_byte(a: Byte, b: Byte) -> Byte {
    ((a * b) % 0x100) as Byte
}

pub open spec fn mul_overflows_byte(a: Byte, b: Byte) -> bool {
    a * b > Byte::MAX
}

pub open spec fn mul_result_quarter(a: Quarter, b: Quarter) -> Quarter {
    ((a * b) % 0x1_0000) as Quarter
}

pub open spec fn mul_overflows_quarter(a: Quarter, b: Quarter) -> bool {
    a * b > Quarter::MAX
}

pub open spec fn mul_result_half(a: Half, b: Half) -> Half {
    ((a * b) % 0x1_0000_0000) as Half
}

pub open spec fn mul_overflows_half(a: Half, b: Half) -> bool {
    a * b > Half::MAX
}

pub open spec fn mul_result_word(a: Word, b: Word) -> Word {
    ((a * b) % 0x1_0000_0000_0000_0000) as Word
}

pub open spec fn mul_overflows_word(a: Word, b: Word) -> bool {
    a * b > Word::MAX
}

} // verus!
