//! Token-level parsing: register names and unsigned decimal literals at
//! each of the four widths. An out-of-range literal is a parse failure,
//! never wrapped.

use vstd::prelude::*;

use crate::constant::{Byte, Half, Quarter, Word};
use crate::operand::Operand;
use crate::register::Register;

verus! {

/// Character-wise string equality.
pub fn str_eq(a: &str, b: &str) -> (r: bool)
    ensures
        r == (a@ == b@),
{
    let n = a.unicode_len();
    let m = b.unicode_len();
    if n != m {
        return false;
    }
    let mut i: usize = 0;
    while i < n
        invariant
            n == a@.len(),
            n == b@.len(),
            i <= n,
            forall|j: int| 0 <= j < i ==> a@[j] == b@[j],
        decreases n - i,
    {
        let ca = a.get_char(i);
        let cb = b.get_char(i);
        if ca != cb {
            return false;
        }
        i += 1;
    }
    proof {
        assert(a@ =~= b@);
    }
    true
}

/// The closed register-name vocabulary: the four general-purpose
/// registers and the stack pointer, lower case. The transient parameter
/// registers have no name in source text.
pub open spec fn spec_parse_register(t: Seq<char>) -> Option<Register> {
    if t == "a"@ {
        Some(Register::A)
    } else if t == "b"@ {
        Some(Register::B)
    } else if t == "c"@ {
        Some(Register::C)
    } else if t == "d"@ {
        Some(Register::D)
    } else if t == "sp"@ {
        Some(Register::SP)
    } else {
        None
    }
}

/// Resolves a token against the register-name vocabulary.
pub fn parse_register(token: &str) -> (r: Option<Register>)
    ensures
        r == spec_parse_register(token@),
{
    if str_eq(token, "a") {
        Some(Register::A)
    } else if str_eq(token, "b") {
        Some(Register::B)
    } else if str_eq(token, "c") {
        Some(Register::C)
    } else if str_eq(token, "d") {
        Some(Register::D)
    } else if str_eq(token, "sp") {
        Some(Register::SP)
    } else {
        None
    }
}

/// Whether `c` is a decimal digit.
pub open spec fn is_digit(c: char) -> bool {
    48 <= c as u32 <= 57
}

/// The value of a decimal digit.
pub open spec fn digit_val(c: char) -> int {
    c as u32 - 48
}

/// Whether every character of `t` is a decimal digit.
pub open spec fn all_digits(t: Seq<char>) -> bool {
    forall|i: int| 0 <= i < t.len() ==> is_digit(t[i])
}

/// The value of `t` read as a decimal numeral, most significant digit
/// first.
pub open spec fn digits_val(t: Seq<char>) -> int
    decreases t.len(),
{
    if t.len() == 0 {
        0
    } else {
        digits_val(t.drop_last()) * 10 + digit_val(t.last())
    }
}

/// A numeral over digits is never negative.
proof fn lemma_digits_val_nonneg(t: Seq<char>)
    requires
        all_digits(t),
    ensures
        digits_val(t) >= 0,
    decreases t.len(),
{
    if t.len() > 0 {
        assert(all_digits(t.drop_last()));
        lemma_digits_val_nonneg(t.drop_last());
    }
}

/// Extending a numeral with more digits never shrinks its value, so any
/// prefix of a digit string is worth at most the whole.
proof fn lemma_digits_val_prefix_le(t: Seq<char>, j: int)
    requires
        all_digits(t),
        0 <= j <= t.len(),
    ensures
        digits_val(t.subrange(0, j)) <= digits_val(t),
    decreases t.len() - j,
{
    if j == t.len() {
        assert(t.subrange(0, j) =~= t);
    } else {
        let p = t.subrange(0, j);
        let q = t.subrange(0, j + 1);
        assert(q.drop_last() =~= p);
        assert(all_digits(p));
        lemma_digits_val_nonneg(p);
        assert(digits_val(q) == digits_val(p) * 10 + digit_val(t[j]));
        lemma_digits_val_prefix_le(t, j + 1);
    }
}

/// What a token yields as a 64-bit literal: its numeral value, provided
/// the token is a nonempty digit string whose value fits.
pub open spec fn spec_parse_word(t: Seq<char>) -> Option<Word> {
    if t.len() > 0 && all_digits(t) && digits_val(t) <= Word::MAX {
        Some(digits_val(t) as Word)
    } else {
        None
    }
}

/// What a token yields as an 8-bit literal.
pub open spec fn spec_parse_byte(t: Seq<char>) -> Option<Byte> {
    match spec_parse_word(t) {
        Some(v) => if v <= Byte::MAX as Word {
            Some(v as Byte)
        } else {
            None
        },
        None => None,
    }
}

/// What a token yields as a 16-bit literal.
pub open spec fn spec_parse_quarter(t: Seq<char>) -> Option<Quarter> {
    match spec_parse_word(t) {
        Some(v) => if v <= Quarter::MAX as Word {
            Some(v as Quarter)
        } else {
            None
        },
        None => None,
    }
}

/// What a token yields as a 32-bit literal.
pub open spec fn spec_parse_half(t: Seq<char>) -> Option<Half> {
    match spec_parse_word(t) {
        Some(v) => if v <= Half::MAX as Word {
            Some(v as Half)
        } else {
            None
        },
        None => None,
    }
}

/// Parses a token as a 64-bit unsigned decimal literal.
pub fn parse_word_literal(token: &str) -> (r: Option<Word>)
    ensures
        r == spec_parse_word(token@),
{
    let n = token.unicode_len();
    if n == 0 {
        return None;
    }
    let mut acc: u64 = 0;
    let mut i: usize = 0;
    while i < n
        invariant
            n == token@.len(),
            0 < n,
            i <= n,
            all_digits(token@.subrange(0, i as int)),
            acc == digits_val(token@.subrange(0, i as int)),
        decreases n - i,
    {
        let c = token.get_char(i);
        let cv = c as u32;
        if cv < 48 || cv > 57 {
            assert(!all_digits(token@));
            return None;
        }
        let d = (cv - 48) as u64;
        proof {
            assert(token@.subrange(0, i + 1).drop_last() =~= token@.subrange(0, i as int));
            assert(token@.subrange(0, i + 1).last() == token@[i as int]);
        }
        let limit = (u64::MAX - d) / 10;
        proof {
            vstd::arithmetic::div_mod::lemma_fundamental_div_mod((u64::MAX - d) as int, 10);
        }
        if acc > limit {
            proof {
                assert(digits_val(token@.subrange(0, i + 1)) > u64::MAX);
                if all_digits(token@) {
                    lemma_digits_val_prefix_le(token@, i + 1);
                }
            }
            return None;
        }
        acc = acc * 10 + d;
        i += 1;
    }
    proof {
        assert(token@.subrange(0, n as int) =~= token@);
    }
    Some(acc)
}

/// Parses a token as an 8-bit unsigned decimal literal; a value over the
/// width's maximum is rejected, not wrapped.
pub fn parse_byte_literal(token: &str) -> (r: Option<Byte>)
    ensures
        r == spec_parse_byte(token@),
{
    match parse_word_literal(token) {
        Some(v) => if v <= Byte::MAX as Word {
            Some(v as Byte)
        } else {
            None
        },
        None => None,
    }
}

/// Parses a token as a 16-bit unsigned decimal literal.
pub fn parse_quarter_literal(token: &str) -> (r: Option<Quarter>)
    ensures
        r == spec_parse_quarter(token@),
{
    match parse_word_literal(token) {
        Some(v) => if v <= Quarter::MAX as Word {
            Some(v as Quarter)
        } else {
            None
        },
        None => None,
    }
}

/// Parses a token as a 32-bit unsigned decimal literal.
pub fn parse_half_literal(token: &str) -> (r: Option<Half>)
    ensures
        r == spec_parse_half(token@),
{
    match parse_word_literal(token) {
        Some(v) => if v <= Half::MAX as Word {
            Some(v as Half)
        } else {
            None
        },
        None => None,
    }
}

/// What an operand token resolves to at byte width: a register name
/// first, else a literal in range for the width.
pub open spec fn spec_operand_byte(t: Seq<char>) -> Option<Operand<Byte>> {
    match spec_parse_register(t) {
        Some(r) => Some(Operand::Register(r)),
        None => match spec_parse_byte(t) {
            Some(v) => Some(Operand::Immediate(v)),
            None => None,
        },
    }
}

/// What an operand token resolves to at 16-bit width.
pub open spec fn spec_operand_quarter(t: Seq<char>) -> Option<Operand<Quarter>> {
    match spec_parse_register(t) {
        Some(r) => Some(Operand::Register(r)),
        None => match spec_parse_quarter(t) {
            Some(v) => Some(Operand::Immediate(v)),
            None => None,
        },
    }
}

/// What an operand token resolves to at 32-bit width.
pub open spec fn spec_operand_half(t: Seq<char>) -> Option<Operand<Half>> {
    match spec_parse_register(t) {
        Some(r) => Some(Operand::Register(r)),
        None => match spec_parse_half(t) {
            Some(v) => Some(Operand::Immediate(v)),
            None => None,
        },
    }
}

/// What an operand token resolves to at 64-bit width.
pub open spec fn spec_operand_word(t: Seq<char>) -> Option<Operand<Word>> {
    match spec_parse_register(t) {
        Some(r) => Some(Operand::Register(r)),
        None => match spec_parse_word(t) {
            Some(v) => Some(Operand::Immediate(v)),
            None => None,
        },
    }
}

/// Resolves an operand token at byte width.
pub fn parse_byte_operand(token: &str) -> (r: Option<Operand<Byte>>)
    ensures
        r == spec_operand_byte(token@),
{
    match parse_register(token) {
        Some(reg) => Some(Operand::Register(reg)),
        None => match parse_byte_literal(token) {
            Some(v) => Some(Operand::Immediate(v)),
            None => None,
        },
    }
}

/// Resolves an operand token at 16-bit width.
pub fn parse_quarter_operand(token: &str) -> (r: Option<Operand<Quarter>>)
    ensures
        r == spec_operand_quarter(token@),
{
    match parse_register(token) {
        Some(reg) => Some(Operand::Register(reg)),
        None => match parse_quarter_literal(token) {
            Some(v) => Some(Operand::Immediate(v)),
            None => None,
        },
    }
}

/// Resolves an operand token at 32-bit width.
pub fn parse_half_operand(token: &str) -> (r: Option<Operand<Half>>)
    ensures
        r == spec_operand_half(token@),
{
    match parse_register(token) {
        Some(reg) => Some(Operand::Register(reg)),
        None => match parse_half_literal(token) {
            Some(v) => Some(Operand::Immediate(v)),
            None => None,
        },
    }
}

/// Resolves an operand token at 64-bit width.
pub fn parse_word_operand(token: &str) -> (r: Option<Operand<Word>>)
    ensures
        r == spec_operand_word(token@),
{
    match parse_register(token) {
        Some(reg) => Some(Operand::Register(reg)),
        None => match parse_word_literal(token) {
            Some(v) => Some(Operand::Immediate(v)),
            None => None,
        },
    }
}

} // verus!
