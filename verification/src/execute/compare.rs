//! The test and compare instructions: conditional logic upstream is
//! expressed by recomputing the flags as a conjunction or a subtraction
//! would, while the result itself is discarded and no register changes.

use vstd::prelude::*;

use crate::constant::{Byte, Half, Quarter, Word};
use crate::execute::{
    operand_byte, operand_half, operand_quarter, operand_word, reg_byte, reg_half, reg_quarter,
    reg_word,
};
use crate::flags::{
    spec_flags_from_byte, spec_flags_from_half, spec_flags_from_quarter, spec_flags_from_word,
};
use crate::arith::{
    sub_overflows, sub_result_byte, sub_result_half, sub_result_quarter, sub_result_word,
};
use crate::instruction::{CompareInstruction, TestInstruction};
use crate::operand::Operand;
use crate::register::Register;
use crate::registers::RegisterOperations;
use crate::Processor;

verus! {

/// What executing a test does: the flags are recomputed exactly as the
/// conjunction would compute them, but the result is discarded and no
/// register changes.
pub open spec fn test_effect(pre: Processor, post: Processor, i: TestInstruction) -> bool {
    &&& post.wf()
    &&& post.same_except_flags(pre)
    &&& match i {
        TestInstruction::Byte(r, o) => {
            let a = reg_byte(pre.registers@, r);
            let b = operand_byte(pre.registers@, o);
            post.flags == spec_flags_from_byte(a & b, false)
        },
        TestInstruction::Quarter(r, o) => {
            let a = reg_quarter(pre.registers@, r);
            let b = operand_quarter(pre.registers@, o);
            post.flags == spec_flags_from_quarter(a & b, false)
        },
        TestInstruction::Half(r, o) => {
            let a = reg_half(pre.registers@, r);
            let b = operand_half(pre.registers@, o);
            post.flags == spec_flags_from_half(a & b, false)
        },
        TestInstruction::Word(r, o) => {
            let a = reg_word(pre.registers@, r);
            let b = operand_word(pre.registers@, o);
            post.flags == spec_flags_from_word(a & b, false)
        },
    }
}

/// What executing a compare does: the flags are recomputed exactly as
/// the subtraction would compute them, but the result is discarded and
/// no register changes.
pub open spec fn compare_effect(pre: Processor, post: Processor, i: CompareInstruction) -> bool {
    &&& post.wf()
    &&& post.same_except_flags(pre)
    &&& match i {
        CompareInstruction::Byte(r, o) => {
            let a = reg_byte(pre.registers@, r);
            let b = operand_byte(pre.registers@, o);
            post.flags == spec_flags_from_byte(sub_result_byte(a, b), sub_overflows(a as int, b as int))
        },
        CompareInstruction::Quarter(r, o) => {
            let a = reg_quarter(pre.registers@, r);
            let b = operand_quarter(pre.registers@, o);
            post.flags == spec_flags_from_quarter(sub_result_quarter(a, b), sub_overflows(a as int, b as int))
        },
        CompareInstruction::Half(r, o) => {
            let a = reg_half(pre.registers@, r);
            let b = operand_half(pre.registers@, o);
            post.flags == spec_flags_from_half(sub_result_half(a, b), sub_overflows(a as int, b as int))
        },
        CompareInstruction::Word(r, o) => {
            let a = reg_word(pre.registers@, r);
            let b = operand_word(pre.registers@, o);
            post.flags == spec_flags_from_word(sub_result_word(a, b), sub_overflows(a as int, b as int))
        },
    }
}

impl Processor {
    pub fn test(&mut self, instruction: TestInstruction)
        requires
            old(self).wf(),
        ensures
            test_effect(*old(self), *final(self), instruction),
    {
        match instruction {
            TestInstruction::Byte(r, o) => self.test_byte(r, o),
            TestInstruction::Quarter(r, o) => self.test_quarter(r, o),
            TestInstruction::Half(r, o) => self.test_half(r, o),
            TestInstruction::Word(r, o) => self.test_word(r, o),
        }
    }

    pub fn compare(&mut self, instruction: CompareInstruction)
        requires
            old(self).wf(),
        ensures
            compare_effect(*old(self), *final(self), instruction),
    {
        match instruction {
            CompareInstruction::Byte(r, o) => self.compare_byte(r, o),
            CompareInstruction::Quarter(r, o) => self.compare_quarter(r, o),
            CompareInstruction::Half(r, o) => self.compare_half(r, o),
            CompareInstruction::Word(r, o) => self.compare_word(r, o),
        }
    }

    pub fn test_byte(&mut self, register: Register, operand: Operand<Byte>)
        requires
            old(self).wf(),
        ensures
            test_effect(
                *old(self),
                *final(self),
                TestInstruction::Byte(register, operand),
            ),
    {
        let a = self.registers.get_reg_as_byte(register);
        let b = self.get_byte_operand_val(operand);

        let result = a & b;
        self.flags.set_from_byte(result, false);
    }

    pub fn test_quarter(&mut self, register: Register, operand: Operand<Quarter>)
        requires
            old(self).wf(),
        ensures
            test_effect(
                *old(self),
                *final(self),
                TestInstruction::Quarter(register, operand),
            ),
    {
        let a = self.registers.get_reg_as_quarter(register);
        let b = self.get_quarter_operand_val(operand);

        let result = a & b;
        self.flags.set_from_quarter(result, false);
    }

    pub fn test_half(&mut self, register: Register, operand: Operand<Half>)
        requires
            old(self).wf(),
        ensures
            test_effect(
                *old(self),
                *final(self),
                TestInstruction::Half(register, operand),
            ),
    {
        let a = self.registers.get_reg_as_half(register);
        let b = self.get_half_operand_val(operand);

        let result = a & b;
        self.flags.set_from_half(result, false);
    }

    pub fn test_word(&mut self, register: Register, operand: Operand<Word>)
        requires
            old(self).wf(),
        ensures
            test_effect(
                *old(self),
                *final(self),
                TestInstruction::Word(register, operand),
            ),
    {
        let a = self.registers.get_reg(register);
        let b = self.get_word_operand_val(operand);

        let result = a & b;
        self.flags.set_from_word(result, false);
    }

    pub fn compare_byte(&mut self, register: Register, operand: Operand<Byte>)
        requires
            old(self).wf(),
        ensures
            compare_effect(
                *old(self),
                *final(self),
                CompareInstruction::Byte(register, operand),
            ),
    {
        let a = self.registers.get_reg_as_byte(register);
        let b = self.get_byte_operand_val(operand);

        let result = a.wrapping_sub(b);
        let overflow = a < b;
        self.flags.set_from_byte(result, overflow);
    }

    pub fn compare_quarter(&mut self, register: Register, operand: Operand<Quarter>)
        requires
            old(self).wf(),
        ensures
            compare_effect(
                *old(self),
                *final(self),
                CompareInstruction::Quarter(register, operand),
            ),
    {
        let a = self.registers.get_reg_as_quarter(register);
        let b = self.get_quarter_operand_val(operand);

        let result = a.wrapping_sub(b);
        let overflow = a < b;
        self.flags.set_from_quarter(result, overflow);
    }

    pub fn compare_half(&mut self, register: Register, operand: Operand<Half>)
        requires
            old(self).wf(),
        ensures
            compare_effect(
                *old(self),
                *final(self),
                CompareInstruction::Half(register, operand),
            ),
    {
        let a = self.registers.get_reg_as_half(register);
        let b = self.get_half_operand_val(operand);

        let result = a.wrapping_sub(b);
        let overflow = a < b;
        self.flags.set_from_half(result, overflow);
    }

    pub fn compare_word(&mut self, register: Register, operand: Operand<Word>)
        requires
            old(self).wf(),
        ensures
            compare_effect(
                *old(self),
                *final(self),
                CompareInstruction::Word(register, operand),
            ),
    {
        let a = self.registers.get_reg(register);
        let b = self.get_word_operand_val(operand);

        let result = a.wrapping_sub(b);
        let overflow = a < b;
        self.flags.set_from_word(result, overflow);
    }
}

} // verus!
