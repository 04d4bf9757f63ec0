//! The addition instruction: wrapping addition at the instruction's
//! width, with the flags recomputed from the result and the carry-out.

use vstd::prelude::*;

use crate::arith::{
    add_overflows_byte, add_overflows_half, add_overflows_quarter, add_overflows_word,
    add_result_byte, add_result_half, add_result_quarter, add_result_word,
};
use crate::constant::{Byte, Half, Quarter, Word};
use crate::execute::{
    operand_byte, operand_half, operand_quarter, operand_word, reg_byte, reg_half, reg_quarter,
    reg_word,
};
use crate::flags::{
    spec_flags_from_byte, spec_flags_from_half, spec_flags_from_quarter, spec_flags_from_word,
};
use crate::instruction::AddInstruction;
use crate::operand::Operand;
use crate::register::Register;
use crate::registers::RegisterOperations;
use crate::Processor;

verus! {

/// What executing an addition does: the destination cell receives the
/// wrapped sum of its value at the instruction's width and the resolved
/// operand, and the flags are recomputed from that result and the
/// overflow indicator.
pub open spec fn add_effect(pre: Processor, post: Processor, i: AddInstruction) -> bool {
    &&& post.wf()
    &&& post.same_except_registers_and_flags(pre)
    &&& match i {
        AddInstruction::Byte(r, o) => {
            let a = reg_byte(pre.registers@, r);
            let b = operand_byte(pre.registers@, o);
            &&& post.registers@ == pre.registers@.update(
                r.spec_index(),
                add_result_byte(a, b) as Word,
            )
            &&& post.flags == spec_flags_from_byte(add_result_byte(a, b), add_overflows_byte(a, b))
        },
        AddInstruction::Quarter(r, o) => {
            let a = reg_quarter(pre.registers@, r);
            let b = operand_quarter(pre.registers@, o);
            &&& post.registers@ == pre.registers@.update(
                r.spec_index(),
                add_result_quarter(a, b) as Word,
            )
            &&& post.flags == spec_flags_from_quarter(add_result_quarter(a, b), add_overflows_quarter(a, b))
        },
        AddInstruction::Half(r, o) => {
            let a = reg_half(pre.registers@, r);
            let b = operand_half(pre.registers@, o);
            &&& post.registers@ == pre.registers@.update(
                r.spec_index(),
                add_result_half(a, b) as Word,
            )
            &&& post.flags == spec_flags_from_half(add_result_half(a, b), add_overflows_half(a, b))
        },
        AddInstruction::Word(r, o) => {
            let a = reg_word(pre.registers@, r);
            let b = operand_word(pre.registers@, o);
            &&& post.registers@ == pre.registers@.update(
                r.spec_index(),
                add_result_word(a, b),
            )
            &&& post.flags == spec_flags_from_word(add_result_word(a, b), add_overflows_word(a, b))
        },
    }
}

impl Processor {
    pub fn add(&mut self, instruction: AddInstruction)
        requires
            old(self).wf(),
        ensures
            add_effect(*old(self), *final(self), instruction),
    {
        match instruction {
            AddInstruction::Byte(r, o) => self.add_byte(r, o),
            AddInstruction::Quarter(r, o) => self.add_quarter(r, o),
            AddInstruction::Half(r, o) => self.add_half(r, o),
            AddInstruction::Word(r, o) => self.add_word(r, o),
        }
    }

    pub fn add_byte(&mut self, register: Register, operand: Operand<Byte>)
        requires
            old(self).wf(),
        ensures
            add_effect(
                *old(self),
                *final(self),
                AddInstruction::Byte(register, operand),
            ),
    {
        let a = self.registers.get_reg_as_byte(register);
        let b = self.get_byte_operand_val(operand);

        let result = a.wrapping_add(b);
        let overflow = a > Byte::MAX - b;
        self.flags.set_from_byte(result, overflow);
        self.registers.set_reg(register, result as Word);
    }

    pub fn add_quarter(&mut self, register: Register, operand: Operand<Quarter>)
        requires
            old(self).wf(),
        ensures
            add_effect(
                *old(self),
                *final(self),
                AddInstruction::Quarter(register, operand),
            ),
    {
        let a = self.registers.get_reg_as_quarter(register);
        let b = self.get_quarter_operand_val(operand);

        let result = a.wrapping_add(b);
        let overflow = a > Quarter::MAX - b;
        self.flags.set_from_quarter(result, overflow);
        self.registers.set_reg(register, result as Word);
    }

    pub fn add_half(&mut self, register: Register, operand: Operand<Half>)
        requires
            old(self).wf(),
        ensures
            add_effect(
                *old(self),
                *final(self),
                AddInstruction::Half(register, operand),
            ),
    {
        let a = self.registers.get_reg_as_half(register);
        let b = self.get_half_operand_val(operand);

        let result = a.wrapping_add(b);
        let overflow = a > Half::MAX - b;
        self.flags.set_from_half(result, overflow);
        self.registers.set_reg(register, result as Word);
    }

    pub fn add_word(&mut self, register: Register, operand: Operand<Word>)
        requires
            old(self).wf(),
        ensures
            add_effect(
                *old(self),
                *final(self),
                AddInstruction::Word(register, operand),
            ),
    {
        let a = self.registers.get_reg(register);
        let b = self.get_word_operand_val(operand);

        let result = a.wrapping_add(b);
        let overflow = a > Word::MAX - b;
        self.flags.set_from_word(result, overflow);
        self.registers.set_reg(register, result);
    }
}

} // verus!
