//! The executor: consumes a typed instruction and mutates the register
//! file, flags, stack and program counter accordingly, or reports an
//! execution failure leaving the machine exactly as it was.

use vstd::prelude::*;

use crate::constant::{Byte, Half, Quarter, Word};
use crate::error::ExecuteError;
use crate::execute::addition::add_effect;
use crate::execute::multiplication::mul_effect;
use crate::execute::bitwise::{and_effect, not_effect, or_effect, xor_effect};
use crate::execute::compare::{compare_effect, test_effect};
use crate::execute::control::{
    call_effect, jump_effect, print_register_effect, print_stack_effect, ret_effect, stop_effect,
};
use crate::execute::div::div_effect;
use crate::execute::remainder::rem_effect;
use crate::execute::set::set_effect;
use crate::execute::stack::{pop_effect, push_effect};
use crate::execute::sub::sub_effect;
use crate::instruction::Instruction;
use crate::operand::Operand;
use crate::register::Register;
use crate::registers::RegisterOperations;
use crate::Processor;

pub mod addition;
pub mod bitwise;
pub mod control;
pub mod compare;
pub mod div;
pub mod multiplication;
pub mod remainder;
pub mod set;
pub mod stack;
pub mod staged;
pub mod sub;

verus! {

/// The low byte of the given register's cell.
pub open spec fn reg_byte(regs: Seq<Word>, r: Register) -> Byte {
    (regs[r.spec_index()] % 0x100) as Byte
}

/// The low two bytes of the given register's cell.
pub open spec fn reg_quarter(regs: Seq<Word>, r: Register) -> Quarter {
    (regs[r.spec_index()] % 0x1_0000) as Quarter
}

/// The low four bytes of the given register's cell.
pub open spec fn reg_half(regs: Seq<Word>, r: Register) -> Half {
    (regs[r.spec_index()] % 0x1_0000_0000) as Half
}

/// The given register's full cell.
pub open spec fn reg_word(regs: Seq<Word>, r: Register) -> Word {
    regs[r.spec_index()]
}

/// What an 8-bit operand resolves to against the given register file.
pub open spec fn operand_byte(regs: Seq<Word>, o: Operand<Byte>) -> Byte {
    match o {
        Operand::Register(r) => reg_byte(regs, r),
        Operand::Immediate(v) => v,
    }
}

/// What a 16-bit operand resolves to against the given register file.
pub open spec fn operand_quarter(regs: Seq<Word>, o: Operand<Quarter>) -> Quarter {
    match o {
        Operand::Register(r) => reg_quarter(regs, r),
        Operand::Immediate(v) => v,
    }
}

/// What a 32-bit operand resolves to against the given register file.
pub open spec fn operand_half(regs: Seq<Word>, o: Operand<Half>) -> Half {
    match o {
        Operand::Register(r) => reg_half(regs, r),
        Operand::Immediate(v) => v,
    }
}

/// What a 64-bit operand resolves to against the given register file.
pub open spec fn operand_word(regs: Seq<Word>, o: Operand<Word>) -> Word {
    match o {
        Operand::Register(r) => reg_word(regs, r),
        Operand::Immediate(v) => v,
    }
}

impl Processor {
    /// Resolves an 8-bit operand: an immediate yields its literal, a
    /// register reference reads the named slot at byte width.
    pub fn get_byte_operand_val(&self, operand: Operand<Byte>) -> (v: Byte)
        requires
            self.wf(),
        ensures
            v == operand_byte(self.registers@, operand),
    {
        match operand {
            Operand::Register(r) => self.registers.get_reg_as_byte(r),
            Operand::Immediate(v) => v,
        }
    }

    /// Resolves a 16-bit operand.
    pub fn get_quarter_operand_val(&self, operand: Operand<Quarter>) -> (v: Quarter)
        requires
            self.wf(),
        ensures
            v == operand_quarter(self.registers@, operand),
    {
        match operand {
            Operand::Register(r) => self.registers.get_reg_as_quarter(r),
            Operand::Immediate(v) => v,
        }
    }

    /// Resolves a 32-bit operand.
    pub fn get_half_operand_val(&self, operand: Operand<Half>) -> (v: Half)
        requires
            self.wf(),
        ensures
            v == operand_half(self.registers@, operand),
    {
        match operand {
            Operand::Register(r) => self.registers.get_reg_as_half(r),
            Operand::Immediate(v) => v,
        }
    }

    /// Resolves a 64-bit operand.
    pub fn get_word_operand_val(&self, operand: Operand<Word>) -> (v: Word)
        requires
            self.wf(),
        ensures
            v == operand_word(self.registers@, operand),
    {
        match operand {
            Operand::Register(r) => self.registers.get_reg(r),
            Operand::Immediate(v) => v,
        }
    }
}

/// What executing any instruction does: the per-opcode effect, with the
/// infallible opcodes returning success.
pub open spec fn execute_effect(
    pre: Processor,
    post: Processor,
    i: Instruction,
    res: Result<(), ExecuteError>,
) -> bool {
    match i {
        Instruction::Stop => stop_effect(pre, post) && res == Ok::<(), ExecuteError>(()),
        Instruction::SetReg(ins) => set_effect(pre, post, ins) && res == Ok::<(), ExecuteError>(
            (),
        ),
        Instruction::Addition(ins) => add_effect(pre, post, ins) && res == Ok::<
            (),
            ExecuteError,
        >(()),
        Instruction::Subtraction(ins) => sub_effect(pre, post, ins) && res == Ok::<
            (),
            ExecuteError,
        >(()),
        Instruction::Multiplication(ins) => mul_effect(pre, post, ins) && res == Ok::<
            (),
            ExecuteError,
        >(()),
        Instruction::Division(ins) => div_effect(pre, post, ins, res),
        Instruction::Remainder(ins) => rem_effect(pre, post, ins, res),
        Instruction::Push(ins) => push_effect(pre, post, ins, res),
        Instruction::Pop(ins) => pop_effect(pre, post, ins, res),
        Instruction::Call(operand) => call_effect(pre, post, operand, res),
        Instruction::Return => ret_effect(pre, post, res),
        Instruction::And(ins) => and_effect(pre, post, ins) && res == Ok::<(), ExecuteError>(()),
        Instruction::Or(ins) => or_effect(pre, post, ins) && res == Ok::<(), ExecuteError>(()),
        Instruction::Xor(ins) => xor_effect(pre, post, ins) && res == Ok::<(), ExecuteError>(()),
        Instruction::Not(ins) => not_effect(pre, post, ins) && res == Ok::<(), ExecuteError>(()),
        Instruction::Test(ins) => test_effect(pre, post, ins) && res == Ok::<(), ExecuteError>(
            (),
        ),
        Instruction::Compare(ins) => compare_effect(pre, post, ins) && res == Ok::<
            (),
            ExecuteError,
        >(()),
        Instruction::Jump(operand) => jump_effect(pre, post, operand) && res == Ok::<
            (),
            ExecuteError,
        >(()),
        Instruction::PrintRegister(register) => print_register_effect(pre, post, register, res),
        Instruction::PrintStack(operand) => print_stack_effect(pre, post, operand, res),
    }
}

/// Whatever an instruction does, it never touches the execution
/// bookkeeping: the instruction counter and the reporting switch belong
/// to the driving loop.
pub proof fn lemma_execute_effect_bookkeeping(
    pre: Processor,
    post: Processor,
    i: Instruction,
    res: Result<(), ExecuteError>,
)
    requires
        execute_effect(pre, post, i, res),
    ensures
        post.instructions_executed == pre.instructions_executed,
        post.print_instructions_executed == pre.print_instructions_executed,
{
}

impl Processor {
    /// Applies one decoded instruction to the machine, or reports an
    /// execution failure leaving the machine exactly as it was.
    pub fn execute(&mut self, instruction: Instruction) -> (res: Result<(), ExecuteError>)
        requires
            old(self).wf(),
        ensures
            final(self).wf(),
            execute_effect(*old(self), *final(self), instruction, res),
    {
        match instruction {
            Instruction::Stop => self.stop()?,
            Instruction::SetReg(ins) => self.set(ins),
            Instruction::Addition(ins) => self.add(ins),
            Instruction::Subtraction(ins) => self.sub(ins),
            Instruction::Multiplication(ins) => self.mul(ins),
            Instruction::Division(ins) => self.div(ins)?,
            Instruction::Remainder(ins) => self.rem(ins)?,
            Instruction::Push(ins) => self.push(ins)?,
            Instruction::Pop(ins) => self.pop(ins)?,
            Instruction::Call(operand) => self.call(operand)?,
            Instruction::Return => self.ret()?,
            Instruction::And(ins) => self.and(ins),
            Instruction::Or(ins) => self.or(ins),
            Instruction::Xor(ins) => self.xor(ins),
            Instruction::Not(ins) => self.not(ins),
            Instruction::Test(ins) => self.test(ins),
            Instruction::Compare(ins) => self.compare(ins),
            Instruction::Jump(operand) => self.jump(operand),
            Instruction::PrintRegister(register) => self.print_register(register)?,
            Instruction::PrintStack(operand) => self.print_stack(operand)?,
        }

        Ok(())
    }
}

} // verus!
