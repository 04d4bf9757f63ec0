//! The bitwise logic instructions: conjunction, disjunction, exclusive
//! disjunction and inversion at the instruction's width, each recomputing
//! the flags from its result with the overflow bit cleared.

use vstd::prelude::*;

use crate::constant::{Byte, Half, Quarter, Word};
use crate::execute::{
    operand_byte, operand_half, operand_quarter, operand_word, reg_byte, reg_half, reg_quarter,
    reg_word,
};
use crate::flags::{
    spec_flags_from_byte, spec_flags_from_half, spec_flags_from_quarter, spec_flags_from_word,
};
use crate::instruction::{AndInstruction, Not, OrInstruction, XorInstruction};
use crate::operand::Operand;
use crate::register::Register;
use crate::registers::RegisterOperations;
use crate::Processor;

verus! {

/// What executing a bitwise conjunction does: the destination cell
/// receives the conjunction of its value at the instruction's width and
/// the resolved operand, and the flags are recomputed from it with the
/// overflow bit cleared.
pub open spec fn and_effect(pre: Processor, post: Processor, i: AndInstruction) -> bool {
    &&& post.wf()
    &&& post.same_except_registers_and_flags(pre)
    &&& match i {
        AndInstruction::Byte(r, o) => {
            let a = reg_byte(pre.registers@, r);
            let b = operand_byte(pre.registers@, o);
            &&& post.registers@ == pre.registers@.update(r.spec_index(), ((a & b) as Word))
            &&& post.flags == spec_flags_from_byte(a & b, false)
        },
        AndInstruction::Quarter(r, o) => {
            let a = reg_quarter(pre.registers@, r);
            let b = operand_quarter(pre.registers@, o);
            &&& post.registers@ == pre.registers@.update(r.spec_index(), ((a & b) as Word))
            &&& post.flags == spec_flags_from_quarter(a & b, false)
        },
        AndInstruction::Half(r, o) => {
            let a = reg_half(pre.registers@, r);
            let b = operand_half(pre.registers@, o);
            &&& post.registers@ == pre.registers@.update(r.spec_index(), ((a & b) as Word))
            &&& post.flags == spec_flags_from_half(a & b, false)
        },
        AndInstruction::Word(r, o) => {
            let a = reg_word(pre.registers@, r);
            let b = operand_word(pre.registers@, o);
            &&& post.registers@ == pre.registers@.update(r.spec_index(), (a & b))
            &&& post.flags == spec_flags_from_word(a & b, false)
        },
    }
}

/// What executing a bitwise disjunction does: the destination cell
/// receives the disjunction of its value at the instruction's width and
/// the resolved operand, and the flags are recomputed from it with the
/// overflow bit cleared.
pub open spec fn or_effect(pre: Processor, post: Processor, i: OrInstruction) -> bool {
    &&& post.wf()
    &&& post.same_except_registers_and_flags(pre)
    &&& match i {
        OrInstruction::Byte(r, o) => {
            let a = reg_byte(pre.registers@, r);
            let b = operand_byte(pre.registers@, o);
            &&& post.registers@ == pre.registers@.update(r.spec_index(), ((a | b) as Word))
            &&& post.flags == spec_flags_from_byte(a | b, false)
        },
        OrInstruction::Quarter(r, o) => {
            let a = reg_quarter(pre.registers@, r);
            let b = operand_quarter(pre.registers@, o);
            &&& post.registers@ == pre.registers@.update(r.spec_index(), ((a | b) as Word))
            &&& post.flags == spec_flags_from_quarter(a | b, false)
        },
        OrInstruction::Half(r, o) => {
            let a = reg_half(pre.registers@, r);
            let b = operand_half(pre.registers@, o);
            &&& post.registers@ == pre.registers@.update(r.spec_index(), ((a | b) as Word))
            &&& post.flags == spec_flags_from_half(a | b, false)
        },
        OrInstruction::Word(r, o) => {
            let a = reg_word(pre.registers@, r);
            let b = operand_word(pre.registers@, o);
            &&& post.registers@ == pre.registers@.update(r.spec_index(), (a | b))
            &&& post.flags == spec_flags_from_word(a | b, false)
        },
    }
}

/// What executing a bitwise exclusive disjunction does: the destination
/// cell receives the exclusive disjunction of its value at the
/// instruction's width and the resolved operand, and the flags are
/// recomputed from it with the overflow bit cleared.
pub open spec fn xor_effect(pre: Processor, post: Processor, i: XorInstruction) -> bool {
    &&& post.wf()
    &&& post.same_except_registers_and_flags(pre)
    &&& match i {
        XorInstruction::Byte(r, o) => {
            let a = reg_byte(pre.registers@, r);
            let b = operand_byte(pre.registers@, o);
            &&& post.registers@ == pre.registers@.update(r.spec_index(), ((a ^ b) as Word))
            &&& post.flags == spec_flags_from_byte(a ^ b, false)
        },
        XorInstruction::Quarter(r, o) => {
            let a = reg_quarter(pre.registers@, r);
            let b = operand_quarter(pre.registers@, o);
            &&& post.registers@ == pre.registers@.update(r.spec_index(), ((a ^ b) as Word))
            &&& post.flags == spec_flags_from_quarter(a ^ b, false)
        },
        XorInstruction::Half(r, o) => {
            let a = reg_half(pre.registers@, r);
            let b = operand_half(pre.registers@, o);
            &&& post.registers@ == pre.registers@.update(r.spec_index(), ((a ^ b) as Word))
            &&& post.flags == spec_flags_from_half(a ^ b, false)
        },
        XorInstruction::Word(r, o) => {
            let a = reg_word(pre.registers@, r);
            let b = operand_word(pre.registers@, o);
            &&& post.registers@ == pre.registers@.update(r.spec_index(), (a ^ b))
            &&& post.flags == spec_flags_from_word(a ^ b, false)
        },
    }
}

/// What executing a bitwise inversion does: the destination cell
/// receives the inversion of its value at the instruction's width, and
/// the flags are recomputed from it with the overflow bit cleared.
pub open spec fn not_effect(pre: Processor, post: Processor, i: Not) -> bool {
    &&& post.wf()
    &&& post.same_except_registers_and_flags(pre)
    &&& match i {
        Not::Byte(r) => {
            let a = reg_byte(pre.registers@, r);
            &&& post.registers@ == pre.registers@.update(r.spec_index(), ((!a) as Word))
            &&& post.flags == spec_flags_from_byte(!a, false)
        },
        Not::Quarter(r) => {
            let a = reg_quarter(pre.registers@, r);
            &&& post.registers@ == pre.registers@.update(r.spec_index(), ((!a) as Word))
            &&& post.flags == spec_flags_from_quarter(!a, false)
        },
        Not::Half(r) => {
            let a = reg_half(pre.registers@, r);
            &&& post.registers@ == pre.registers@.update(r.spec_index(), ((!a) as Word))
            &&& post.flags == spec_flags_from_half(!a, false)
        },
        Not::Word(r) => {
            let a = reg_word(pre.registers@, r);
            &&& post.registers@ == pre.registers@.update(r.spec_index(), (!a))
            &&& post.flags == spec_flags_from_word(!a, false)
        },
    }
}

impl Processor {
    pub fn and(&mut self, instruction: AndInstruction)
        requires
            old(self).wf(),
        ensures
            and_effect(*old(self), *final(self), instruction),
    {
        match instruction {
            AndInstruction::Byte(r, o) => self.and_byte(r, o),
            AndInstruction::Quarter(r, o) => self.and_quarter(r, o),
            AndInstruction::Half(r, o) => self.and_half(r, o),
            AndInstruction::Word(r, o) => self.and_word(r, o),
        }
    }

    pub fn and_byte(&mut self, register: Register, operand: Operand<Byte>)
        requires
            old(self).wf(),
        ensures
            and_effect(
                *old(self),
                *final(self),
                AndInstruction::Byte(register, operand),
            ),
    {
        let a = self.registers.get_reg_as_byte(register);
        let b = self.get_byte_operand_val(operand);

        let result = a & b;
        self.flags.set_from_byte(result, false);
        self.registers.set_reg(register, result as Word);
    }

    pub fn and_quarter(&mut self, register: Register, operand: Operand<Quarter>)
        requires
            old(self).wf(),
        ensures
            and_effect(
                *old(self),
                *final(self),
                AndInstruction::Quarter(register, operand),
            ),
    {
        let a = self.registers.get_reg_as_quarter(register);
        let b = self.get_quarter_operand_val(operand);

        let result = a & b;
        self.flags.set_from_quarter(result, false);
        self.registers.set_reg(register, result as Word);
    }

    pub fn and_half(&mut self, register: Register, operand: Operand<Half>)
        requires
            old(self).wf(),
        ensures
            and_effect(
                *old(self),
                *final(self),
                AndInstruction::Half(register, operand),
            ),
    {
        let a = self.registers.get_reg_as_half(register);
        let b = self.get_half_operand_val(operand);

        let result = a & b;
        self.flags.set_from_half(result, false);
        self.registers.set_reg(register, result as Word);
    }

    pub fn and_word(&mut self, register: Register, operand: Operand<Word>)
        requires
            old(self).wf(),
        ensures
            and_effect(
                *old(self),
                *final(self),
                AndInstruction::Word(register, operand),
            ),
    {
        let a = self.registers.get_reg(register);
        let b = self.get_word_operand_val(operand);

        let result = a & b;
        self.flags.set_from_word(result, false);
        self.registers.set_reg(register, result);
    }

    pub fn or(&mut self, instruction: OrInstruction)
        requires
            old(self).wf(),
        ensures
            or_effect(*old(self), *final(self), instruction),
    {
        match instruction {
            OrInstruction::Byte(r, o) => self.or_byte(r, o),
            OrInstruction::Quarter(r, o) => self.or_quarter(r, o),
            OrInstruction::Half(r, o) => self.or_half(r, o),
            OrInstruction::Word(r, o) => self.or_word(r, o),
        }
    }

    pub fn or_byte(&mut self, register: Register, operand: Operand<Byte>)
        requires
            old(self).wf(),
        ensures
            or_effect(
                *old(self),
                *final(self),
                OrInstruction::Byte(register, operand),
            ),
    {
        let a = self.registers.get_reg_as_byte(register);
        let b = self.get_byte_operand_val(operand);

        let result = a | b;
        self.flags.set_from_byte(result, false);
        self.registers.set_reg(register, result as Word);
    }

    pub fn or_quarter(&mut self, register: Register, operand: Operand<Quarter>)
        requires
            old(self).wf(),
        ensures
            or_effect(
                *old(self),
                *final(self),
                OrInstruction::Quarter(register, operand),
            ),
    {
        let a = self.registers.get_reg_as_quarter(register);
        let b = self.get_quarter_operand_val(operand);

        let result = a | b;
        self.flags.set_from_quarter(result, false);
        self.registers.set_reg(register, result as Word);
    }

    pub fn or_half(&mut self, register: Register, operand: Operand<Half>)
        requires
            old(self).wf(),
        ensures
            or_effect(
                *old(self),
                *final(self),
                OrInstruction::Half(register, operand),
            ),
    {
        let a = self.registers.get_reg_as_half(register);
        let b = self.get_half_operand_val(operand);

        let result = a | b;
        self.flags.set_from_half(result, false);
        self.registers.set_reg(register, result as Word);
    }

    pub fn or_word(&mut self, register: Register, operand: Operand<Word>)
        requires
            old(self).wf(),
        ensures
            or_effect(
                *old(self),
                *final(self),
                OrInstruction::Word(register, operand),
            ),
    {
        let a = self.registers.get_reg(register);
        let b = self.get_word_operand_val(operand);

        let result = a | b;
        self.flags.set_from_word(result, false);
        self.registers.set_reg(register, result);
    }

    pub fn xor(&mut self, instruction: XorInstruction)
        requires
            old(self).wf(),
        ensures
            xor_effect(*old(self), *final(self), instruction),
    {
        match instruction {
            XorInstruction::Byte(r, o) => self.xor_byte(r, o),
            XorInstruction::Quarter(r, o) => self.xor_quarter(r, o),
            XorInstruction::Half(r, o) => self.xor_half(r, o),
            XorInstruction::Word(r, o) => self.xor_word(r, o),
        }
    }

    pub fn xor_byte(&mut self, register: Register, operand: Operand<Byte>)
        requires
            old(self).wf(),
        ensures
            xor_effect(
                *old(self),
                *final(self),
                XorInstruction::Byte(register, operand),
            ),
    {
        let a = self.registers.get_reg_as_byte(register);
        let b = self.get_byte_operand_val(operand);

        let result = a ^ b;
        self.flags.set_from_byte(result, false);
        self.registers.set_reg(register, result as Word);
    }

    pub fn xor_quarter(&mut self, register: Register, operand: Operand<Quarter>)
        requires
            old(self).wf(),
        ensures
            xor_effect(
                *old(self),
                *final(self),
                XorInstruction::Quarter(register, operand),
            ),
    {
        let a = self.registers.get_reg_as_quarter(register);
        let b = self.get_quarter_operand_val(operand);

        let result = a ^ b;
        self.flags.set_from_quarter(result, false);
        self.registers.set_reg(register, result as Word);
    }

    pub fn xor_half(&mut self, register: Register, operand: Operand<Half>)
        requires
            old(self).wf(),
        ensures
            xor_effect(
                *old(self),
                *final(self),
                XorInstruction::Half(register, operand),
            ),
    {
        let a = self.registers.get_reg_as_half(register);
        let b = self.get_half_operand_val(operand);

        let result = a ^ b;
        self.flags.set_from_half(result, false);
        self.registers.set_reg(register, result as Word);
    }

    pub fn xor_word(&mut self, register: Register, operand: Operand<Word>)
        requires
            old(self).wf(),
        ensures
            xor_effect(
                *old(self),
                *final(self),
                XorInstruction::Word(register, operand),
            ),
    {
        let a = self.registers.get_reg(register);
        let b = self.get_word_operand_val(operand);

        let result = a ^ b;
        self.flags.set_from_word(result, false);
        self.registers.set_reg(register, result);
    }

    pub fn not(&mut self, instruction: Not)
        requires
            old(self).wf(),
        ensures
            not_effect(*old(self), *final(self), instruction),
    {
        match instruction {
            Not::Byte(r) => self.not_byte(r),
            Not::Quarter(r) => self.not_quarter(r),
            Not::Half(r) => self.not_half(r),
            Not::Word(r) => self.not_word(r),
        }
    }

    pub fn not_byte(&mut self, register: Register)
        requires
            old(self).wf(),
        ensures
            not_effect(*old(self), *final(self), Not::Byte(register)),
    {
        let a = self.registers.get_reg_as_byte(register);

        let result = !a;
        self.flags.set_from_byte(result, false);
        self.registers.set_reg(register, result as Word);
    }

    pub fn not_quarter(&mut self, register: Register)
        requires
            old(self).wf(),
        ensures
            not_effect(*old(self), *final(self), Not::Quarter(register)),
    {
        let a = self.registers.get_reg_as_quarter(register);

        let result = !a;
        self.flags.set_from_quarter(result, false);
        self.registers.set_reg(register, result as Word);
    }

    pub fn not_half(&mut self, register: Register)
        requires
            old(self).wf(),
        ensures
            not_effect(*old(self), *final(self), Not::Half(register)),
    {
        let a = self.registers.get_reg_as_half(register);

        let result = !a;
        self.flags.set_from_half(result, false);
        self.registers.set_reg(register, result as Word);
    }

    pub fn not_word(&mut self, register: Register)
        requires
            old(self).wf(),
        ensures
            not_effect(*old(self), *final(self), Not::Word(register)),
    {
        let a = self.registers.get_reg(register);

        let result = !a;
        self.flags.set_from_word(result, false);
        self.registers.set_reg(register, result);
    }
}

} // verus!
