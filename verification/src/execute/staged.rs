//! The staged execution scheme, an alternate encoding beside the typed
//! instructions: a decoded instruction stages a destination register id
//! in the first parameter register and an operand value in the second,
//! and a width-specific routine reads both back out of the register
//! file. The id arrives as a
//! runtime value, so it must be validated here; an id outside the closed
//! destination set fails with `InvalidRegisterCast` and mutates nothing.

use vstd::prelude::*;

use crate::arith::{
    add_overflows_byte, add_overflows_half, add_overflows_quarter, add_overflows_word,
    add_result_byte, add_result_half, add_result_quarter, add_result_word, sub_overflows,
    sub_result_byte,
};
use crate::constant::Word;
use crate::error::ExecuteError;
use crate::execute::{reg_byte, reg_half, reg_quarter, reg_word};
use crate::flags::{
    spec_flags_from_byte, spec_flags_from_half, spec_flags_from_quarter, spec_flags_from_word,
};
use crate::register::{spec_register_from_word, Register};
use crate::registers::RegisterOperations;
use crate::Processor;

verus! {

/// The destination id staged in the first parameter register, validated
/// against the closed destination set.
pub open spec fn staged_destination(pre: Processor) -> Option<Register> {
    spec_register_from_word(reg_word(pre.registers@, Register::P1))
}

/// The failure a staged instruction reports when the staged id names no
/// register: the offending id is carried in the error.
pub open spec fn staged_cast_failure(pre: Processor) -> ExecuteError {
    ExecuteError::InvalidRegisterCast(reg_word(pre.registers@, Register::P1))
}

impl Processor {
    /// The staged stop: the running flag falls.
    pub fn execute_stop(&mut self) -> (res: Result<(), ExecuteError>)
        requires
            old(self).wf(),
        ensures
            final(self).wf(),
            *final(self) == (Processor { running: false, ..*old(self) }),
            res == Ok::<(), ExecuteError>(()),
    {
        self.running = false;

        Ok(())
    }

    /// The staged set: the value staged in the second parameter register
    /// is moved, whole, into the cell the staged id names. The staged
    /// value was confirmed applicable to the operation width when it was
    /// decoded, so every width variant executes identically and the flags
    /// stay untouched.
    pub fn execute_set(&mut self) -> (res: Result<(), ExecuteError>)
        requires
            old(self).wf(),
        ensures
            final(self).wf(),
            match staged_destination(*old(self)) {
                Some(r) => {
                    &&& final(self).registers@ == old(self).registers@.update(
                        r.spec_index(),
                        reg_word(old(self).registers@, Register::P2),
                    )
                    &&& final(self).same_except_registers(*old(self))
                    &&& res == Ok::<(), ExecuteError>(())
                },
                None => {
                    &&& *final(self) == *old(self)
                    &&& res == Err::<(), ExecuteError>(staged_cast_failure(*old(self)))
                },
            },
    {
        let register = Register::try_from(self.registers.get_reg(Register::P1))?;
        let value = self.registers.get_reg(Register::P2);
        self.registers.set_reg(register, value);

        Ok(())
    }

    pub fn execute_set_byte(&mut self) -> (res: Result<(), ExecuteError>)
        requires
            old(self).wf(),
        ensures
            final(self).wf(),
            match staged_destination(*old(self)) {
                Some(r) => {
                    &&& final(self).registers@ == old(self).registers@.update(
                        r.spec_index(),
                        reg_word(old(self).registers@, Register::P2),
                    )
                    &&& final(self).same_except_registers(*old(self))
                    &&& res == Ok::<(), ExecuteError>(())
                },
                None => {
                    &&& *final(self) == *old(self)
                    &&& res == Err::<(), ExecuteError>(staged_cast_failure(*old(self)))
                },
            },
    {
        self.execute_set()
    }

    pub fn execute_set_quarter(&mut self) -> (res: Result<(), ExecuteError>)
        requires
            old(self).wf(),
        ensures
            final(self).wf(),
            match staged_destination(*old(self)) {
                Some(r) => {
                    &&& final(self).registers@ == old(self).registers@.update(
                        r.spec_index(),
                        reg_word(old(self).registers@, Register::P2),
                    )
                    &&& final(self).same_except_registers(*old(self))
                    &&& res == Ok::<(), ExecuteError>(())
                },
                None => {
                    &&& *final(self) == *old(self)
                    &&& res == Err::<(), ExecuteError>(staged_cast_failure(*old(self)))
                },
            },
    {
        self.execute_set()
    }

    pub fn execute_set_half(&mut self) -> (res: Result<(), ExecuteError>)
        requires
            old(self).wf(),
        ensures
            final(self).wf(),
            match staged_destination(*old(self)) {
                Some(r) => {
                    &&& final(self).registers@ == old(self).registers@.update(
                        r.spec_index(),
                        reg_word(old(self).registers@, Register::P2),
                    )
                    &&& final(self).same_except_registers(*old(self))
                    &&& res == Ok::<(), ExecuteError>(())
                },
                None => {
                    &&& *final(self) == *old(self)
                    &&& res == Err::<(), ExecuteError>(staged_cast_failure(*old(self)))
                },
            },
    {
        self.execute_set()
    }

    pub fn execute_set_word(&mut self) -> (res: Result<(), ExecuteError>)
        requires
            old(self).wf(),
        ensures
            final(self).wf(),
            match staged_destination(*old(self)) {
                Some(r) => {
                    &&& final(self).registers@ == old(self).registers@.update(
                        r.spec_index(),
                        reg_word(old(self).registers@, Register::P2),
                    )
                    &&& final(self).same_except_registers(*old(self))
                    &&& res == Ok::<(), ExecuteError>(())
                },
                None => {
                    &&& *final(self) == *old(self)
                    &&& res == Err::<(), ExecuteError>(staged_cast_failure(*old(self)))
                },
            },
    {
        self.execute_set()
    }

    /// The staged byte addition: the destination cell, read at byte
    /// width, gains the byte staged in the second parameter register,
    /// wrapping, and the flags are recomputed.
    pub fn execute_add_byte(&mut self) -> (res: Result<(), ExecuteError>)
        requires
            old(self).wf(),
        ensures
            final(self).wf(),
            match staged_destination(*old(self)) {
                Some(r) => {
                    let a = reg_byte(old(self).registers@, r);
                    let b = reg_byte(old(self).registers@, Register::P2);
                    &&& final(self).registers@ == old(self).registers@.update(
                        r.spec_index(),
                        add_result_byte(a, b) as Word,
                    )
                    &&& final(self).flags == spec_flags_from_byte(
                        add_result_byte(a, b),
                        add_overflows_byte(a, b),
                    )
                    &&& final(self).same_except_registers_and_flags(*old(self))
                    &&& res == Ok::<(), ExecuteError>(())
                },
                None => {
                    &&& *final(self) == *old(self)
                    &&& res == Err::<(), ExecuteError>(staged_cast_failure(*old(self)))
                },
            },
    {
        let register = Register::try_from(self.registers.get_reg(Register::P1))?;
        let a = self.registers.get_reg_as_byte(register);
        let b = self.registers.get_reg_as_byte(Register::P2);

        let result = a.wrapping_add(b);
        let overflow = a > u8::MAX - b;
        self.flags.set_from_byte(result, overflow);
        self.registers.set_reg(register, result as Word);

        Ok(())
    }

    /// The staged 16-bit addition.
    pub fn execute_add_quarter(&mut self) -> (res: Result<(), ExecuteError>)
        requires
            old(self).wf(),
        ensures
            final(self).wf(),
            match staged_destination(*old(self)) {
                Some(r) => {
                    let a = reg_quarter(old(self).registers@, r);
                    let b = reg_quarter(old(self).registers@, Register::P2);
                    &&& final(self).registers@ == old(self).registers@.update(
                        r.spec_index(),
                        add_result_quarter(a, b) as Word,
                    )
                    &&& final(self).flags == spec_flags_from_quarter(
                        add_result_quarter(a, b),
                        add_overflows_quarter(a, b),
                    )
                    &&& final(self).same_except_registers_and_flags(*old(self))
                    &&& res == Ok::<(), ExecuteError>(())
                },
                None => {
                    &&& *final(self) == *old(self)
                    &&& res == Err::<(), ExecuteError>(staged_cast_failure(*old(self)))
                },
            },
    {
        let register = Register::try_from(self.registers.get_reg(Register::P1))?;
        let a = self.registers.get_reg_as_quarter(register);
        let b = self.registers.get_reg_as_quarter(Register::P2);

        let result = a.wrapping_add(b);
        let overflow = a > u16::MAX - b;
        self.flags.set_from_quarter(result, overflow);
        self.registers.set_reg(register, result as Word);

        Ok(())
    }

    /// The staged 32-bit addition.
    pub fn execute_add_half(&mut self) -> (res: Result<(), ExecuteError>)
        requires
            old(self).wf(),
        ensures
            final(self).wf(),
            match staged_destination(*old(self)) {
                Some(r) => {
                    let a = reg_half(old(self).registers@, r);
                    let b = reg_half(old(self).registers@, Register::P2);
                    &&& final(self).registers@ == old(self).registers@.update(
                        r.spec_index(),
                        add_result_half(a, b) as Word,
                    )
                    &&& final(self).flags == spec_flags_from_half(
                        add_result_half(a, b),
                        add_overflows_half(a, b),
                    )
                    &&& final(self).same_except_registers_and_flags(*old(self))
                    &&& res == Ok::<(), ExecuteError>(())
                },
                None => {
                    &&& *final(self) == *old(self)
                    &&& res == Err::<(), ExecuteError>(staged_cast_failure(*old(self)))
                },
            },
    {
        let register = Register::try_from(self.registers.get_reg(Register::P1))?;
        let a = self.registers.get_reg_as_half(register);
        let b = self.registers.get_reg_as_half(Register::P2);

        let result = a.wrapping_add(b);
        let overflow = a > u32::MAX - b;
        self.flags.set_from_half(result, overflow);
        self.registers.set_reg(register, result as Word);

        Ok(())
    }

    /// The staged 64-bit addition.
    pub fn execute_add_word(&mut self) -> (res: Result<(), ExecuteError>)
        requires
            old(self).wf(),
        ensures
            final(self).wf(),
            match staged_destination(*old(self)) {
                Some(r) => {
                    let a = reg_word(old(self).registers@, r);
                    let b = reg_word(old(self).registers@, Register::P2);
                    &&& final(self).registers@ == old(self).registers@.update(
                        r.spec_index(),
                        add_result_word(a, b),
                    )
                    &&& final(self).flags == spec_flags_from_word(
                        add_result_word(a, b),
                        add_overflows_word(a, b),
                    )
                    &&& final(self).same_except_registers_and_flags(*old(self))
                    &&& res == Ok::<(), ExecuteError>(())
                },
                None => {
                    &&& *final(self) == *old(self)
                    &&& res == Err::<(), ExecuteError>(staged_cast_failure(*old(self)))
                },
            },
    {
        let register = Register::try_from(self.registers.get_reg(Register::P1))?;
        let a = self.registers.get_reg(register);
        let b = self.registers.get_reg(Register::P2);

        let result = a.wrapping_add(b);
        let overflow = a > u64::MAX - b;
        self.flags.set_from_word(result, overflow);
        self.registers.set_reg(register, result);

        Ok(())
    }

    /// The staged byte subtraction: the destination cell, read at byte
    /// width, loses the byte staged in the second parameter register,
    /// wrapping, and the flags are recomputed.
    pub fn execute_sub_byte(&mut self) -> (res: Result<(), ExecuteError>)
        requires
            old(self).wf(),
        ensures
            final(self).wf(),
            match staged_destination(*old(self)) {
                Some(r) => {
                    let a = reg_byte(old(self).registers@, r);
                    let b = reg_byte(old(self).registers@, Register::P2);
                    &&& final(self).registers@ == old(self).registers@.update(
                        r.spec_index(),
                        sub_result_byte(a, b) as Word,
                    )
                    &&& final(self).flags == spec_flags_from_byte(
                        sub_result_byte(a, b),
                        sub_overflows(a as int, b as int),
                    )
                    &&& final(self).same_except_registers_and_flags(*old(self))
                    &&& res == Ok::<(), ExecuteError>(())
                },
                None => {
                    &&& *final(self) == *old(self)
                    &&& res == Err::<(), ExecuteError>(staged_cast_failure(*old(self)))
                },
            },
    {
        let register = Register::try_from(self.registers.get_reg(Register::P1))?;
        let a = self.registers.get_reg_as_byte(register);
        let b = self.registers.get_reg_as_byte(Register::P2);

        let result = a.wrapping_sub(b);
        let overflow = a < b;
        self.flags.set_from_byte(result, overflow);
        self.registers.set_reg(register, result as Word);

        Ok(())
    }
}

} // verus!
