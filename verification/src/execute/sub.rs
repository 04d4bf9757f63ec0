//! The subtraction instruction: wrapping subtraction at the instruction's
//! width, with the flags recomputed from the result and the borrow.

use vstd::prelude::*;

use crate::arith::{
    sub_overflows, sub_result_byte, sub_result_half, sub_result_quarter, sub_result_word,
};
use crate::constant::{Byte, Half, Quarter, Word};
use crate::execute::{
    operand_byte, operand_half, operand_quarter, operand_word, reg_byte, reg_half, reg_quarter,
    reg_word,
};
use crate::flags::{
    spec_flags_from_byte, spec_flags_from_half, spec_flags_from_quarter, spec_flags_from_word,
};
use crate::instruction::SubInstruction;
use crate::operand::Operand;
use crate::register::Register;
use crate::registers::RegisterOperations;
use crate::Processor;

verus! {

/// What executing a subtraction does: the destination cell receives the
/// wrapped difference of its value at the instruction's width and the
/// resolved operand, and the flags are recomputed from that result and
/// the overflow indicator.
pub open spec fn sub_effect(pre: Processor, post: Processor, i: SubInstruction) -> bool {
    &&& post.wf()
    &&& post.same_except_registers_and_flags(pre)
    &&& match i {
        SubInstruction::Byte(r, o) => {
            let a = reg_byte(pre.registers@, r);
            let b = operand_byte(pre.registers@, o);
            &&& post.registers@ == pre.registers@.update(
                r.spec_index(),
                sub_result_byte(a, b) as Word,
            )
            &&& post.flags == spec_flags_from_byte(
                sub_result_byte(a, b),
                sub_overflows(a as int, b as int),
            )
        },
        SubInstruction::Quarter(r, o) => {
            let a = reg_quarter(pre.registers@, r);
            let b = operand_quarter(pre.registers@, o);
            &&& post.registers@ == pre.registers@.update(
                r.spec_index(),
                sub_result_quarter(a, b) as Word,
            )
            &&& post.flags == spec_flags_from_quarter(
                sub_result_quarter(a, b),
                sub_overflows(a as int, b as int),
            )
        },
        SubInstruction::Half(r, o) => {
            let a = reg_half(pre.registers@, r);
            let b = operand_half(pre.registers@, o);
            &&& post.registers@ == pre.registers@.update(
                r.spec_index(),
                sub_result_half(a, b) as Word,
            )
            &&& post.flags == spec_flags_from_half(
                sub_result_half(a, b),
                sub_overflows(a as int, b as int),
            )
        },
        SubInstruction::Word(r, o) => {
            let a = reg_word(pre.registers@, r);
            let b = operand_word(pre.registers@, o);
            &&& post.registers@ == pre.registers@.update(
                r.spec_index(),
                sub_result_word(a, b),
            )
            &&& post.flags == spec_flags_from_word(
                sub_result_word(a, b),
                sub_overflows(a as int, b as int),
            )
        },
    }
}

impl Processor {
    pub fn sub(&mut self, instruction: SubInstruction)
        requires
            old(self).wf(),
        ensures
            sub_effect(*old(self), *final(self), instruction),
    {
        match instruction {
            SubInstruction::Byte(r, o) => self.sub_byte(r, o),
            SubInstruction::Quarter(r, o) => self.sub_quarter(r, o),
            SubInstruction::Half(r, o) => self.sub_half(r, o),
            SubInstruction::Word(r, o) => self.sub_word(r, o),
        }
    }

    pub fn sub_byte(&mut self, register: Register, operand: Operand<Byte>)
        requires
            old(self).wf(),
        ensures
            sub_effect(
                *old(self),
                *final(self),
                SubInstruction::Byte(register, operand),
            ),
    {
        let a = self.registers.get_reg_as_byte(register);
        let b = self.get_byte_operand_val(operand);

        let result = a.wrapping_sub(b);
        let overflow = a < b;
        self.flags.set_from_byte(result, overflow);
        self.registers.set_reg(register, result as Word);
    }

    pub fn sub_quarter(&mut self, register: Register, operand: Operand<Quarter>)
        requires
            old(self).wf(),
        ensures
            sub_effect(
                *old(self),
                *final(self),
                SubInstruction::Quarter(register, operand),
            ),
    {
        let a = self.registers.get_reg_as_quarter(register);
        let b = self.get_quarter_operand_val(operand);

        let result = a.wrapping_sub(b);
        let overflow = a < b;
        self.flags.set_from_quarter(result, overflow);
        self.registers.set_reg(register, result as Word);
    }

    pub fn sub_half(&mut self, register: Register, operand: Operand<Half>)
        requires
            old(self).wf(),
        ensures
            sub_effect(
                *old(self),
                *final(self),
                SubInstruction::Half(register, operand),
            ),
    {
        let a = self.registers.get_reg_as_half(register);
        let b = self.get_half_operand_val(operand);

        let result = a.wrapping_sub(b);
        let overflow = a < b;
        self.flags.set_from_half(result, overflow);
        self.registers.set_reg(register, result as Word);
    }

    pub fn sub_word(&mut self, register: Register, operand: Operand<Word>)
        requires
            old(self).wf(),
        ensures
            sub_effect(
                *old(self),
                *final(self),
                SubInstruction::Word(register, operand),
            ),
    {
        let a = self.registers.get_reg(register);
        let b = self.get_word_operand_val(operand);

        let result = a.wrapping_sub(b);
        let overflow = a < b;
        self.flags.set_from_word(result, overflow);
        self.registers.set_reg(register, result);
    }
}

} // verus!
