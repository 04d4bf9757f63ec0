//! The laws the machine obeys across instructions, proved from the
//! executor's contracts: adding then subtracting the same operand is a
//! round trip, a push followed by a pop is a round trip, and a call's
//! pushed return address is the call-site program counter, which the
//! matching return restores.

use vstd::prelude::*;

use vstd::arithmetic::div_mod::{
    lemma_div_denominator, lemma_fundamental_div_mod, lemma_small_mod,
};

use crate::arith::{add_result_byte, add_result_half, add_result_quarter, add_result_word};
use crate::constant::{Byte, Half, Quarter, Word};
use crate::error::ExecuteError;
use crate::execute::addition::add_effect;
use crate::execute::control::{call_effect, ret_effect};
use crate::execute::stack::{
    half_from_le_bytes, half_le_bytes, pop_allowed, pop_effect, pop_retreat_effect,
    pop_window, push_bytes_effect, push_effect, quarter_from_le_bytes, quarter_le_bytes,
    word_from_le_bytes, word_le_bytes,
};
use crate::execute::sub::sub_effect;
use crate::execute::execute_effect;
use crate::execute::{operand_word, reg_byte, reg_half, reg_quarter, reg_word};
use crate::instruction::{
    AddInstruction, Instruction, PopInstruction, PushInstruction, SubInstruction,
};
use crate::operand::Operand;
use crate::register::Register;
use crate::Processor;

verus! {

/// Reassembling the little-endian bytes of a 16-bit value yields the
/// value back.
pub proof fn lemma_quarter_le_bytes_identity(v: Quarter)
    ensures
        quarter_from_le_bytes(quarter_le_bytes(v)) == v,
{
    let vi = v as int;
    lemma_fundamental_div_mod(vi, 0x100);
    lemma_small_mod((vi / 0x100) as nat, 0x100);
}

/// Reassembling the little-endian bytes of a 32-bit value yields the
/// value back.
pub proof fn lemma_half_le_bytes_identity(v: Half)
    ensures
        half_from_le_bytes(half_le_bytes(v)) == v,
{
    let vi = v as int;
    lemma_fundamental_div_mod(vi, 0x100);
    lemma_div_denominator(vi, 0x100, 0x100);
    lemma_fundamental_div_mod(vi / 0x100, 0x100);
    lemma_div_denominator(vi, 0x1_0000, 0x100);
    lemma_fundamental_div_mod(vi / 0x1_0000, 0x100);
    lemma_fundamental_div_mod(vi, 0x100_0000);
    lemma_small_mod((vi / 0x100_0000) as nat, 0x100);
}

/// Reassembling the little-endian bytes of a 64-bit value yields the
/// value back.
pub proof fn lemma_word_le_bytes_identity(v: Word)
    ensures
        word_from_le_bytes(word_le_bytes(v)) == v,
{
    let vi = v as int;
    lemma_fundamental_div_mod(vi, 0x100);
    lemma_div_denominator(vi, 0x100, 0x100);
    lemma_fundamental_div_mod(vi / 0x100, 0x100);
    lemma_div_denominator(vi, 0x1_0000, 0x100);
    lemma_fundamental_div_mod(vi / 0x1_0000, 0x100);
    lemma_div_denominator(vi, 0x100_0000, 0x100);
    lemma_fundamental_div_mod(vi / 0x100_0000, 0x100);
    lemma_div_denominator(vi, 0x1_0000_0000, 0x100);
    lemma_fundamental_div_mod(vi / 0x1_0000_0000, 0x100);
    lemma_div_denominator(vi, 0x100_0000_0000, 0x100);
    lemma_fundamental_div_mod(vi / 0x100_0000_0000, 0x100);
    lemma_div_denominator(vi, 0x1_0000_0000_0000, 0x100);
    lemma_fundamental_div_mod(vi / 0x1_0000_0000_0000, 0x100);
    lemma_fundamental_div_mod(vi, 0x100_0000_0000_0000);
    lemma_small_mod((vi / 0x100_0000_0000_0000) as nat, 0x100);
}

/// Adding an immediate and then subtracting the same immediate returns
/// the destination register to the value it began with, at byte width,
/// and the zero flag afterwards is set exactly when that value is zero.
pub proof fn lemma_add_then_sub_byte(
    p0: Processor,
    p1: Processor,
    p2: Processor,
    r: Register,
    b: Byte,
)
    requires
        p0.wf(),
        add_effect(p0, p1, AddInstruction::Byte(r, Operand::Immediate(b))),
        sub_effect(p1, p2, SubInstruction::Byte(r, Operand::Immediate(b))),
    ensures
        reg_byte(p2.registers@, r) == reg_byte(p0.registers@, r),
        p2.flags.zero <==> reg_byte(p0.registers@, r) == 0,
{
    let a = reg_byte(p0.registers@, r);
    assert(reg_byte(p1.registers@, r) == add_result_byte(a, b));
}

/// The add-then-subtract round trip at 16-bit width.
pub proof fn lemma_add_then_sub_quarter(
    p0: Processor,
    p1: Processor,
    p2: Processor,
    r: Register,
    b: Quarter,
)
    requires
        p0.wf(),
        add_effect(p0, p1, AddInstruction::Quarter(r, Operand::Immediate(b))),
        sub_effect(p1, p2, SubInstruction::Quarter(r, Operand::Immediate(b))),
    ensures
        reg_quarter(p2.registers@, r) == reg_quarter(p0.registers@, r),
        p2.flags.zero <==> reg_quarter(p0.registers@, r) == 0,
{
    let a = reg_quarter(p0.registers@, r);
    assert(reg_quarter(p1.registers@, r) == add_result_quarter(a, b));
}

/// The add-then-subtract round trip at 32-bit width.
pub proof fn lemma_add_then_sub_half(
    p0: Processor,
    p1: Processor,
    p2: Processor,
    r: Register,
    b: Half,
)
    requires
        p0.wf(),
        add_effect(p0, p1, AddInstruction::Half(r, Operand::Immediate(b))),
        sub_effect(p1, p2, SubInstruction::Half(r, Operand::Immediate(b))),
    ensures
        reg_half(p2.registers@, r) == reg_half(p0.registers@, r),
        p2.flags.zero <==> reg_half(p0.registers@, r) == 0,
{
    let a = reg_half(p0.registers@, r);
    assert(reg_half(p1.registers@, r) == add_result_half(a, b));
}

/// The add-then-subtract round trip at 64-bit width.
pub proof fn lemma_add_then_sub_word(
    p0: Processor,
    p1: Processor,
    p2: Processor,
    r: Register,
    b: Word,
)
    requires
        p0.wf(),
        add_effect(p0, p1, AddInstruction::Word(r, Operand::Immediate(b))),
        sub_effect(p1, p2, SubInstruction::Word(r, Operand::Immediate(b))),
    ensures
        reg_word(p2.registers@, r) == reg_word(p0.registers@, r),
        p2.flags.zero <==> reg_word(p0.registers@, r) == 0,
{
    let a = reg_word(p0.registers@, r);
    assert(reg_word(p1.registers@, r) == add_result_word(a, b));
}

/// A successful 16-bit push followed by a 16-bit pop is a round trip:
/// the bytes the pop reads encode exactly the pushed value, and once the
/// pop retreats, the stack pointer stands where it did before the push.
pub proof fn lemma_push_then_pop_quarter(p0: Processor, p1: Processor, p2: Processor, v: Quarter)
    requires
        p0.wf(),
        push_bytes_effect(p0, p1, quarter_le_bytes(v), Ok::<(), ExecuteError>(())),
        pop_retreat_effect(p1, p2, 2),
    ensures
        pop_allowed(p1, 2),
        quarter_from_le_bytes(pop_window(p1, 2)) == v,
        reg_word(p2.registers@, Register::SP) == reg_word(p0.registers@, Register::SP),
        p2.stack == p1.stack,
{
    let sp0 = reg_word(p0.registers@, Register::SP);
    assert(p0.stack.len() == p0.stack@.len());
    assert(p1.stack@.len() == p0.stack@.len());
    assert(reg_word(p1.registers@, Register::SP) == sp0 + 2);
    assert forall|i: int| 0 <= i < 2 implies pop_window(p1, 2)[i] == quarter_le_bytes(v)[i] by {
        assert(pop_window(p1, 2)[i] == p1.stack@[sp0 + i]);
    }
    assert(pop_window(p1, 2) =~= quarter_le_bytes(v));
    lemma_quarter_le_bytes_identity(v);
}

/// A successful 32-bit push followed by a 32-bit pop is a round trip:
/// the bytes the pop reads encode exactly the pushed value, and once the
/// pop retreats, the stack pointer stands where it did before the push.
pub proof fn lemma_push_then_pop_half(p0: Processor, p1: Processor, p2: Processor, v: Half)
    requires
        p0.wf(),
        push_bytes_effect(p0, p1, half_le_bytes(v), Ok::<(), ExecuteError>(())),
        pop_retreat_effect(p1, p2, 4),
    ensures
        pop_allowed(p1, 4),
        half_from_le_bytes(pop_window(p1, 4)) == v,
        reg_word(p2.registers@, Register::SP) == reg_word(p0.registers@, Register::SP),
        p2.stack == p1.stack,
{
    let sp0 = reg_word(p0.registers@, Register::SP);
    assert(p0.stack.len() == p0.stack@.len());
    assert(p1.stack@.len() == p0.stack@.len());
    assert(reg_word(p1.registers@, Register::SP) == sp0 + 4);
    assert forall|i: int| 0 <= i < 4 implies pop_window(p1, 4)[i] == half_le_bytes(v)[i] by {
        assert(pop_window(p1, 4)[i] == p1.stack@[sp0 + i]);
    }
    assert(pop_window(p1, 4) =~= half_le_bytes(v));
    lemma_half_le_bytes_identity(v);
}

/// A successful word push followed by a word pop is a round trip: the
/// bytes the pop reads encode exactly the pushed value, and once the pop
/// retreats, the stack pointer stands where it did before the push while
/// the buffer keeps its bytes.
pub proof fn lemma_push_then_pop_word(p0: Processor, p1: Processor, p2: Processor, v: Word)
    requires
        p0.wf(),
        push_bytes_effect(p0, p1, word_le_bytes(v), Ok::<(), ExecuteError>(())),
        pop_retreat_effect(p1, p2, 8),
    ensures
        pop_allowed(p1, 8),
        word_from_le_bytes(pop_window(p1, 8)) == v,
        reg_word(p2.registers@, Register::SP) == reg_word(p0.registers@, Register::SP),
        p2.stack == p1.stack,
{
    let sp0 = reg_word(p0.registers@, Register::SP);
    assert(p0.stack.len() == p0.stack@.len());
    assert(p1.stack@.len() == p0.stack@.len());
    assert(reg_word(p1.registers@, Register::SP) == sp0 + 8);
    assert forall|i: int| 0 <= i < 8 implies pop_window(p1, 8)[i] == word_le_bytes(v)[i] by {
        assert(pop_window(p1, 8)[i] == p1.stack@[sp0 + i]);
    }
    assert(pop_window(p1, 8) =~= word_le_bytes(v));
    lemma_word_le_bytes_identity(v);
}

/// Executing a word push instruction and then a word pop instruction is
/// the identity on the stack state and carries the pushed register's
/// value across: after a successful push the pop cannot fail, the
/// destination register ends up holding the word the source register
/// held, the stack pointer stands where it did before the push, and the
/// flags are untouched. The one destination left out is the stack
/// pointer itself, since popping into it overwrites the restored
/// pointer with the popped value.
pub proof fn lemma_push_then_pop_word_instructions(
    p0: Processor,
    p1: Processor,
    p2: Processor,
    src: Register,
    dst: Register,
    res: Result<(), ExecuteError>,
)
    requires
        p0.wf(),
        execute_effect(
            p0,
            p1,
            Instruction::Push(PushInstruction::Word(src)),
            Ok::<(), ExecuteError>(()),
        ),
        execute_effect(p1, p2, Instruction::Pop(PopInstruction::Word(dst)), res),
        dst != Register::SP,
    ensures
        res == Ok::<(), ExecuteError>(()),
        reg_word(p2.registers@, dst) == reg_word(p0.registers@, src),
        reg_word(p2.registers@, Register::SP) == reg_word(p0.registers@, Register::SP),
        p2.flags == p0.flags,
        p2.stack == p1.stack,
{
    let v = reg_word(p0.registers@, src);
    let sp0 = reg_word(p0.registers@, Register::SP);
    assert(push_effect(p0, p1, PushInstruction::Word(src), Ok::<(), ExecuteError>(())));
    assert(pop_effect(p1, p2, PopInstruction::Word(dst), res));
    assert(p0.stack.len() == p0.stack@.len());
    assert(p1.stack@.len() == p0.stack@.len());
    assert(reg_word(p1.registers@, Register::SP) == sp0 + 8);
    assert(pop_allowed(p1, 8));
    assert forall|i: int| 0 <= i < 8 implies pop_window(p1, 8)[i] == word_le_bytes(v)[i] by {
        assert(pop_window(p1, 8)[i] == p1.stack@[sp0 + i]);
    }
    assert(pop_window(p1, 8) =~= word_le_bytes(v));
    lemma_word_le_bytes_identity(v);
}

/// Call and return are symmetric: the return address a successful call
/// pushes is the call-site program counter, so the matching return
/// restores that counter, and the stack pointer, exactly. The driving
/// loop then advances past the restored call site, so control resumes at
/// the instruction immediately after the call.
pub proof fn lemma_call_then_return(
    p0: Processor,
    p1: Processor,
    p2: Processor,
    target: Operand<Word>,
)
    requires
        p0.wf(),
        call_effect(p0, p1, target, Ok::<(), ExecuteError>(())),
        ret_effect(p1, p2, Ok::<(), ExecuteError>(())),
    ensures
        p1.program_counter == operand_word(p0.registers@, target),
        p2.program_counter == p0.program_counter,
        reg_word(p2.registers@, Register::SP) == reg_word(p0.registers@, Register::SP),
{
    let sp0 = reg_word(p0.registers@, Register::SP);
    assert(p0.stack.len() == p0.stack@.len());
    assert(p1.stack@.len() == p0.stack@.len());
    assert(reg_word(p1.registers@, Register::SP) == sp0 + 8);
    assert forall|i: int| 0 <= i < 8 implies pop_window(p1, 8)[i] == word_le_bytes(
        p0.program_counter,
    )[i] by {
        assert(pop_window(p1, 8)[i] == p1.stack@[sp0 + i]);
    }
    assert(pop_window(p1, 8) =~= word_le_bytes(p0.program_counter));
    lemma_word_le_bytes_identity(p0.program_counter);
}

} // verus!
