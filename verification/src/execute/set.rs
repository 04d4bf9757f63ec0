//! The set instruction: moves a resolved operand into a destination
//! register without touching the flags.

use vstd::prelude::*;

use crate::constant::{Byte, Half, Quarter, Word};
use crate::execute::{operand_byte, operand_half, operand_quarter, operand_word};
use crate::instruction::SetInstruction;
use crate::operand::Operand;
use crate::register::Register;
use crate::Processor;

verus! {

/// What executing a set instruction does: the destination cell receives
/// the resolved operand, zero-extended; flags and everything else keep
/// their values.
pub open spec fn set_effect(pre: Processor, post: Processor, i: SetInstruction) -> bool {
    &&& post.wf()
    &&& post.same_except_registers(pre)
    &&& match i {
        SetInstruction::Byte(r, o) => post.registers@ == pre.registers@.update(
            r.spec_index(),
            operand_byte(pre.registers@, o) as Word,
        ),
        SetInstruction::Quarter(r, o) => post.registers@ == pre.registers@.update(
            r.spec_index(),
            operand_quarter(pre.registers@, o) as Word,
        ),
        SetInstruction::Half(r, o) => post.registers@ == pre.registers@.update(
            r.spec_index(),
            operand_half(pre.registers@, o) as Word,
        ),
        SetInstruction::Word(r, o) => post.registers@ == pre.registers@.update(
            r.spec_index(),
            operand_word(pre.registers@, o),
        ),
    }
}

impl Processor {
    pub fn set(&mut self, instruction: SetInstruction)
        requires
            old(self).wf(),
        ensures
            set_effect(*old(self), *final(self), instruction),
    {
        match instruction {
            SetInstruction::Byte(r, o) => self.set_byte(r, o),
            SetInstruction::Quarter(r, o) => self.set_quarter(r, o),
            SetInstruction::Half(r, o) => self.set_half(r, o),
            SetInstruction::Word(r, o) => self.set_word(r, o),
        }
    }

    pub fn set_byte(&mut self, register: Register, operand: Operand<Byte>)
        requires
            old(self).wf(),
        ensures
            set_effect(
                *old(self),
                *final(self),
                SetInstruction::Byte(register, operand),
            ),
    {
        let value = self.get_byte_operand_val(operand);
        self.registers.set_reg(register, value as Word);
    }

    pub fn set_quarter(&mut self, register: Register, operand: Operand<Quarter>)
        requires
            old(self).wf(),
        ensures
            set_effect(
                *old(self),
                *final(self),
                SetInstruction::Quarter(register, operand),
            ),
    {
        let value = self.get_quarter_operand_val(operand);
        self.registers.set_reg(register, value as Word);
    }

    pub fn set_half(&mut self, register: Register, operand: Operand<Half>)
        requires
            old(self).wf(),
        ensures
            set_effect(
                *old(self),
                *final(self),
                SetInstruction::Half(register, operand),
            ),
    {
        let value = self.get_half_operand_val(operand);
        self.registers.set_reg(register, value as Word);
    }

    pub fn set_word(&mut self, register: Register, operand: Operand<Word>)
        requires
            old(self).wf(),
        ensures
            set_effect(
                *old(self),
                *final(self),
                SetInstruction::Word(register, operand),
            ),
    {
        let value = self.get_word_operand_val(operand);
        self.registers.set_reg(register, value);
    }
}

} // verus!
