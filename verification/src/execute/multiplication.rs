//! The multiplication instruction: wrapping multiplication at the
//! instruction's width, with the flags recomputed from the result and the
//! overflow indicator.

use vstd::prelude::*;

use crate::arith::{
    mul_overflows_byte, mul_overflows_half, mul_overflows_quarter, mul_overflows_word,
    mul_result_byte, mul_result_half, mul_result_quarter, mul_result_word,
};
use crate::constant::{Byte, Half, Quarter, Word};
use crate::execute::{
    operand_byte, operand_half, operand_quarter, operand_word, reg_byte, reg_half, reg_quarter,
    reg_word,
};
use crate::flags::{
    spec_flags_from_byte, spec_flags_from_half, spec_flags_from_quarter, spec_flags_from_word,
};
use crate::instruction::MulInstruction;
use crate::operand::Operand;
use crate::register::Register;
use crate::registers::RegisterOperations;
use crate::Processor;

verus! {

/// What executing a multiplication does: the destination cell receives
/// the wrapped product of its value at the instruction's width and the
/// resolved operand, and the flags are recomputed from that result and
/// the overflow indicator.
pub open spec fn mul_effect(pre: Processor, post: Processor, i: MulInstruction) -> bool {
    &&& post.wf()
    &&& post.same_except_registers_and_flags(pre)
    &&& match i {
        MulInstruction::Byte(r, o) => {
            let a = reg_byte(pre.registers@, r);
            let b = operand_byte(pre.registers@, o);
            &&& post.registers@ == pre.registers@.update(
                r.spec_index(),
                mul_result_byte(a, b) as Word,
            )
            &&& post.flags == spec_flags_from_byte(mul_result_byte(a, b), mul_overflows_byte(a, b))
        },
        MulInstruction::Quarter(r, o) => {
            let a = reg_quarter(pre.registers@, r);
            let b = operand_quarter(pre.registers@, o);
            &&& post.registers@ == pre.registers@.update(
                r.spec_index(),
                mul_result_quarter(a, b) as Word,
            )
            &&& post.flags == spec_flags_from_quarter(mul_result_quarter(a, b), mul_overflows_quarter(a, b))
        },
        MulInstruction::Half(r, o) => {
            let a = reg_half(pre.registers@, r);
            let b = operand_half(pre.registers@, o);
            &&& post.registers@ == pre.registers@.update(
                r.spec_index(),
                mul_result_half(a, b) as Word,
            )
            &&& post.flags == spec_flags_from_half(mul_result_half(a, b), mul_overflows_half(a, b))
        },
        MulInstruction::Word(r, o) => {
            let a = reg_word(pre.registers@, r);
            let b = operand_word(pre.registers@, o);
            &&& post.registers@ == pre.registers@.update(
                r.spec_index(),
                mul_result_word(a, b),
            )
            &&& post.flags == spec_flags_from_word(mul_result_word(a, b), mul_overflows_word(a, b))
        },
    }
}

impl Processor {
    pub fn mul(&mut self, instruction: MulInstruction)
        requires
            old(self).wf(),
        ensures
            mul_effect(*old(self), *final(self), instruction),
    {
        match instruction {
            MulInstruction::Byte(r, o) => self.mul_byte(r, o),
            MulInstruction::Quarter(r, o) => self.mul_quarter(r, o),
            MulInstruction::Half(r, o) => self.mul_half(r, o),
            MulInstruction::Word(r, o) => self.mul_word(r, o),
        }
    }

    pub fn mul_byte(&mut self, register: Register, operand: Operand<Byte>)
        requires
            old(self).wf(),
        ensures
            mul_effect(
                *old(self),
                *final(self),
                MulInstruction::Byte(register, operand),
            ),
    {
        let a = self.registers.get_reg_as_byte(register);
        let b = self.get_byte_operand_val(operand);

        let result = a.wrapping_mul(b);
        let overflow = a.checked_mul(b).is_none();
        self.flags.set_from_byte(result, overflow);
        self.registers.set_reg(register, result as Word);
    }

    pub fn mul_quarter(&mut self, register: Register, operand: Operand<Quarter>)
        requires
            old(self).wf(),
        ensures
            mul_effect(
                *old(self),
                *final(self),
                MulInstruction::Quarter(register, operand),
            ),
    {
        let a = self.registers.get_reg_as_quarter(register);
        let b = self.get_quarter_operand_val(operand);

        let result = a.wrapping_mul(b);
        let overflow = a.checked_mul(b).is_none();
        self.flags.set_from_quarter(result, overflow);
        self.registers.set_reg(register, result as Word);
    }

    pub fn mul_half(&mut self, register: Register, operand: Operand<Half>)
        requires
            old(self).wf(),
        ensures
            mul_effect(
                *old(self),
                *final(self),
                MulInstruction::Half(register, operand),
            ),
    {
        let a = self.registers.get_reg_as_half(register);
        let b = self.get_half_operand_val(operand);

        let result = a.wrapping_mul(b);
        let overflow = a.checked_mul(b).is_none();
        self.flags.set_from_half(result, overflow);
        self.registers.set_reg(register, result as Word);
    }

    pub fn mul_word(&mut self, register: Register, operand: Operand<Word>)
        requires
            old(self).wf(),
        ensures
            mul_effect(
                *old(self),
                *final(self),
                MulInstruction::Word(register, operand),
            ),
    {
        let a = self.registers.get_reg(register);
        let b = self.get_word_operand_val(operand);

        let result = a.wrapping_mul(b);
        let overflow = a.checked_mul(b).is_none();
        self.flags.set_from_word(result, overflow);
        self.registers.set_reg(register, result);
    }
}

} // verus!
