//! The division instruction: unsigned division at the instruction's
//! width. A zero divisor fails with `DivideByZero`, leaving the registers
//! and the flags exactly as they were. Unsigned division never overflows,
//! so the overflow flag is cleared on success.

use vstd::prelude::*;

use crate::constant::{Byte, Half, Quarter, Word};
use crate::error::ExecuteError;
use crate::execute::{
    operand_byte, operand_half, operand_quarter, operand_word, reg_byte, reg_half, reg_quarter,
    reg_word,
};
use crate::flags::{
    spec_flags_from_byte, spec_flags_from_half, spec_flags_from_quarter, spec_flags_from_word,
};
use crate::instruction::DivInstruction;
use crate::operand::Operand;
use crate::register::Register;
use crate::registers::RegisterOperations;
use crate::Processor;

verus! {

/// What executing a division does: with a nonzero resolved divisor the
/// destination cell receives the quotient and the flags are recomputed
/// from it; with a zero divisor nothing changes and the instruction
/// fails.
pub open spec fn div_effect(
    pre: Processor,
    post: Processor,
    i: DivInstruction,
    res: Result<(), ExecuteError>,
) -> bool {
    &&& post.wf()
    &&& post.same_except_registers_and_flags(pre)
    &&& match i {
        DivInstruction::Byte(r, o) => {
            let a = reg_byte(pre.registers@, r);
            let b = operand_byte(pre.registers@, o);
            if b == 0 {
                &&& post == pre
                &&& res == Err::<(), ExecuteError>(ExecuteError::DivideByZero)
            } else {
                &&& post.registers@ == pre.registers@.update(
                    r.spec_index(),
                    ((a / b) as Word),
                )
                &&& post.flags == spec_flags_from_byte((a / b) as Byte, false)
                &&& res == Ok::<(), ExecuteError>(())
            }
        },
        DivInstruction::Quarter(r, o) => {
            let a = reg_quarter(pre.registers@, r);
            let b = operand_quarter(pre.registers@, o);
            if b == 0 {
                &&& post == pre
                &&& res == Err::<(), ExecuteError>(ExecuteError::DivideByZero)
            } else {
                &&& post.registers@ == pre.registers@.update(
                    r.spec_index(),
                    ((a / b) as Word),
                )
                &&& post.flags == spec_flags_from_quarter((a / b) as Quarter, false)
                &&& res == Ok::<(), ExecuteError>(())
            }
        },
        DivInstruction::Half(r, o) => {
            let a = reg_half(pre.registers@, r);
            let b = operand_half(pre.registers@, o);
            if b == 0 {
                &&& post == pre
                &&& res == Err::<(), ExecuteError>(ExecuteError::DivideByZero)
            } else {
                &&& post.registers@ == pre.registers@.update(
                    r.spec_index(),
                    ((a / b) as Word),
                )
                &&& post.flags == spec_flags_from_half((a / b) as Half, false)
                &&& res == Ok::<(), ExecuteError>(())
            }
        },
        DivInstruction::Word(r, o) => {
            let a = reg_word(pre.registers@, r);
            let b = operand_word(pre.registers@, o);
            if b == 0 {
                &&& post == pre
                &&& res == Err::<(), ExecuteError>(ExecuteError::DivideByZero)
            } else {
                &&& post.registers@ == pre.registers@.update(
                    r.spec_index(),
                    ((a / b) as Word),
                )
                &&& post.flags == spec_flags_from_word((a / b) as Word, false)
                &&& res == Ok::<(), ExecuteError>(())
            }
        },
    }
}

impl Processor {
    pub fn div(&mut self, instruction: DivInstruction) -> (res: Result<(), ExecuteError>)
        requires
            old(self).wf(),
        ensures
            div_effect(*old(self), *final(self), instruction, res),
    {
        match instruction {
            DivInstruction::Byte(r, o) => self.div_byte(r, o),
            DivInstruction::Quarter(r, o) => self.div_quarter(r, o),
            DivInstruction::Half(r, o) => self.div_half(r, o),
            DivInstruction::Word(r, o) => self.div_word(r, o),
        }
    }

    pub fn div_byte(
        &mut self,
        register: Register,
        operand: Operand<Byte>,
    ) -> (res: Result<(), ExecuteError>)
        requires
            old(self).wf(),
        ensures
            div_effect(
                *old(self),
                *final(self),
                DivInstruction::Byte(register, operand),
                res,
            ),
    {
        let a = self.registers.get_reg_as_byte(register);
        let b = self.get_byte_operand_val(operand);

        if b == 0 {
            return Err(ExecuteError::DivideByZero);
        }
        let result = a / b;
        self.flags.set_from_byte(result, false);
        self.registers.set_reg(register, result as Word);

        Ok(())
    }

    pub fn div_quarter(
        &mut self,
        register: Register,
        operand: Operand<Quarter>,
    ) -> (res: Result<(), ExecuteError>)
        requires
            old(self).wf(),
        ensures
            div_effect(
                *old(self),
                *final(self),
                DivInstruction::Quarter(register, operand),
                res,
            ),
    {
        let a = self.registers.get_reg_as_quarter(register);
        let b = self.get_quarter_operand_val(operand);

        if b == 0 {
            return Err(ExecuteError::DivideByZero);
        }
        let result = a / b;
        self.flags.set_from_quarter(result, false);
        self.registers.set_reg(register, result as Word);

        Ok(())
    }

    pub fn div_half(
        &mut self,
        register: Register,
        operand: Operand<Half>,
    ) -> (res: Result<(), ExecuteError>)
        requires
            old(self).wf(),
        ensures
            div_effect(
                *old(self),
                *final(self),
                DivInstruction::Half(register, operand),
                res,
            ),
    {
        let a = self.registers.get_reg_as_half(register);
        let b = self.get_half_operand_val(operand);

        if b == 0 {
            return Err(ExecuteError::DivideByZero);
        }
        let result = a / b;
        self.flags.set_from_half(result, false);
        self.registers.set_reg(register, result as Word);

        Ok(())
    }

    pub fn div_word(
        &mut self,
        register: Register,
        operand: Operand<Word>,
    ) -> (res: Result<(), ExecuteError>)
        requires
            old(self).wf(),
        ensures
            div_effect(
                *old(self),
                *final(self),
                DivInstruction::Word(register, operand),
                res,
            ),
    {
        let a = self.registers.get_reg(register);
        let b = self.get_word_operand_val(operand);

        if b == 0 {
            return Err(ExecuteError::DivideByZero);
        }
        let result = a / b;
        self.flags.set_from_word(result, false);
        self.registers.set_reg(register, result);

        Ok(())
    }
}

} // verus!
