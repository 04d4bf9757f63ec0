//! Control transfer and the output-adjacent instructions: stop, call,
//! return, jump, and the two print instructions, which append plain
//! events for the external output collaborator.

use vstd::prelude::*;

use crate::constant::Word;
use crate::error::ExecuteError;
use crate::execute::stack::{
    pop_allowed, pop_failure, pop_window, word_from_le_bytes, word_le_bytes, write_bytes,
};
use crate::execute::{operand_word, reg_word};
use crate::operand::Operand;
use crate::output::OutputEvent;
use crate::register::Register;
use crate::registers::RegisterOperations;
use crate::Processor;

verus! {

/// What executing a stop does: the running flag falls, and when reporting
/// is enabled the instruction count is appended to the output queue.
/// Nothing else changes.
pub open spec fn stop_effect(pre: Processor, post: Processor) -> bool {
    &&& post.running == false
    &&& post.registers == pre.registers
    &&& post.flags == pre.flags
    &&& post.stack == pre.stack
    &&& post.program_counter == pre.program_counter
    &&& post.instructions_executed == pre.instructions_executed
    &&& post.print_instructions_executed == pre.print_instructions_executed
    &&& if pre.print_instructions_executed {
        post.output@ == pre.output@.push(
            OutputEvent::InstructionsExecuted(pre.instructions_executed),
        )
    } else {
        post.output == pre.output
    }
}

/// What executing a call does: the current program counter, the return
/// address, is pushed at word width, then the program counter is set to
/// the resolved target. A full stack fails the call and changes nothing.
pub open spec fn call_effect(
    pre: Processor,
    post: Processor,
    operand: Operand<Word>,
    res: Result<(), ExecuteError>,
) -> bool {
    let sp = reg_word(pre.registers@, Register::SP);
    if sp + 8 <= pre.stack@.len() {
        &&& post.registers@ == pre.registers@.update(Register::SP.spec_index(), (sp + 8) as Word)
        &&& post.stack@ == write_bytes(pre.stack@, sp as int, word_le_bytes(pre.program_counter))
        &&& post.program_counter == operand_word(pre.registers@, operand)
        &&& post.flags == pre.flags
        &&& post.running == pre.running
        &&& post.instructions_executed == pre.instructions_executed
        &&& post.print_instructions_executed == pre.print_instructions_executed
        &&& post.output == pre.output
        &&& res == Ok::<(), ExecuteError>(())
    } else {
        &&& post == pre
        &&& res == Err::<(), ExecuteError>(ExecuteError::StackOverflow)
    }
}

/// What executing a return does: a word is popped and assigned to the
/// program counter. The driving loop then advances past that saved call
/// site, so control resumes just after the call. A disallowed pop fails
/// the return and changes nothing.
pub open spec fn ret_effect(
    pre: Processor,
    post: Processor,
    res: Result<(), ExecuteError>,
) -> bool {
    let sp = reg_word(pre.registers@, Register::SP);
    if pop_allowed(pre, 8) {
        &&& post.registers@ == pre.registers@.update(Register::SP.spec_index(), (sp - 8) as Word)
        &&& post.stack == pre.stack
        &&& post.program_counter == word_from_le_bytes(pop_window(pre, 8))
        &&& post.flags == pre.flags
        &&& post.running == pre.running
        &&& post.instructions_executed == pre.instructions_executed
        &&& post.print_instructions_executed == pre.print_instructions_executed
        &&& post.output == pre.output
        &&& res == Ok::<(), ExecuteError>(())
    } else {
        &&& post == pre
        &&& res == Err::<(), ExecuteError>(pop_failure(pre, 8))
    }
}

/// What executing a jump does: the program counter is set to the resolved
/// operand, unconditionally; nothing else changes.
pub open spec fn jump_effect(pre: Processor, post: Processor, operand: Operand<Word>) -> bool {
    &&& post.program_counter == operand_word(pre.registers@, operand)
    &&& post.registers == pre.registers
    &&& post.flags == pre.flags
    &&& post.stack == pre.stack
    &&& post.running == pre.running
    &&& post.instructions_executed == pre.instructions_executed
    &&& post.print_instructions_executed == pre.print_instructions_executed
    &&& post.output == pre.output
}

/// What executing a register print does: the register and its full value
/// are appended to the output queue; nothing else changes.
pub open spec fn print_register_effect(
    pre: Processor,
    post: Processor,
    register: Register,
    res: Result<(), ExecuteError>,
) -> bool {
    &&& post.output@ == pre.output@.push(
        OutputEvent::Register(register, reg_word(pre.registers@, register)),
    )
    &&& post.registers == pre.registers
    &&& post.flags == pre.flags
    &&& post.stack == pre.stack
    &&& post.program_counter == pre.program_counter
    &&& post.running == pre.running
    &&& post.instructions_executed == pre.instructions_executed
    &&& post.print_instructions_executed == pre.print_instructions_executed
    &&& res == Ok::<(), ExecuteError>(())
}

/// What executing a stack print does: the resolved operand names how many
/// bytes below the stack pointer to show; those bytes are appended as one
/// event and nothing else changes. A window reaching below the bottom is
/// an underflow, a stack pointer beyond the capacity an overflow; either
/// fails the print and changes nothing.
pub open spec fn print_stack_effect(
    pre: Processor,
    post: Processor,
    operand: Operand<Word>,
    res: Result<(), ExecuteError>,
) -> bool {
    let sp = reg_word(pre.registers@, Register::SP);
    let count = operand_word(pre.registers@, operand);
    if sp > pre.stack@.len() {
        &&& post == pre
        &&& res == Err::<(), ExecuteError>(ExecuteError::StackOverflow)
    } else if count > sp {
        &&& post == pre
        &&& res == Err::<(), ExecuteError>(ExecuteError::StackUnderflow)
    } else {
        &&& post.output@.len() == pre.output@.len() + 1
        &&& post.output@.subrange(0, pre.output@.len() as int) == pre.output@
        &&& post.output@.last() is Stack
        &&& post.output@.last()->Stack_0@ == pre.stack@.subrange(sp - count, sp as int)
        &&& post.registers == pre.registers
        &&& post.flags == pre.flags
        &&& post.stack == pre.stack
        &&& post.program_counter == pre.program_counter
        &&& post.running == pre.running
        &&& post.instructions_executed == pre.instructions_executed
        &&& post.print_instructions_executed == pre.print_instructions_executed
        &&& res == Ok::<(), ExecuteError>(())
    }
}

impl Processor {
    /// Stops the machine, reporting the instruction count when configured
    /// to.
    pub fn stop(&mut self) -> (res: Result<(), ExecuteError>)
        requires
            old(self).wf(),
        ensures
            final(self).wf(),
            stop_effect(*old(self), *final(self)),
            res == Ok::<(), ExecuteError>(()),
    {
        self.running = false;

        if self.print_instructions_executed {
            let n = self.instructions_executed;
            self.output.push(OutputEvent::InstructionsExecuted(n));
        }

        Ok(())
    }

    /// Calls the resolved target: pushes the return address, then
    /// redirects the program counter.
    pub fn call(&mut self, operand: Operand<Word>) -> (res: Result<(), ExecuteError>)
        requires
            old(self).wf(),
        ensures
            final(self).wf(),
            call_effect(*old(self), *final(self), operand, res),
    {
        let destination = self.get_word_operand_val(operand);
        let return_address = self.program_counter;
        self.push_word_value(return_address)?;
        self.program_counter = destination;

        Ok(())
    }

    /// Returns to the saved call site: pops a word into the program
    /// counter.
    pub fn ret(&mut self) -> (res: Result<(), ExecuteError>)
        requires
            old(self).wf(),
        ensures
            final(self).wf(),
            ret_effect(*old(self), *final(self), res),
    {
        let destination = self.pop_word_value()?;
        self.program_counter = destination;

        Ok(())
    }

    /// Redirects the program counter to the resolved operand.
    pub fn jump(&mut self, operand: Operand<Word>)
        requires
            old(self).wf(),
        ensures
            final(self).wf(),
            jump_effect(*old(self), *final(self), operand),
    {
        let destination = self.get_word_operand_val(operand);
        self.program_counter = destination;
    }

    /// Appends the named register and its value to the output queue.
    pub fn print_register(&mut self, register: Register) -> (res: Result<(), ExecuteError>)
        requires
            old(self).wf(),
        ensures
            final(self).wf(),
            print_register_effect(*old(self), *final(self), register, res),
    {
        let value = self.registers.get_reg(register);
        self.output.push(OutputEvent::Register(register, value));

        Ok(())
    }

    /// Appends the requested window of bytes below the stack pointer to
    /// the output queue.
    pub fn print_stack(&mut self, operand: Operand<Word>) -> (res: Result<(), ExecuteError>)
        requires
            old(self).wf(),
        ensures
            final(self).wf(),
            print_stack_effect(*old(self), *final(self), operand, res),
    {
        let ghost pre = *self;
        let sp = self.registers.get_reg(Register::SP);
        let len = self.stack.len();
        if sp > len as u64 {
            return Err(ExecuteError::StackOverflow);
        }
        let count = self.get_word_operand_val(operand);
        if count > sp {
            return Err(ExecuteError::StackUnderflow);
        }
        let start = (sp - count) as usize;
        let end = sp as usize;
        let mut bytes: Vec<u8> = Vec::new();
        let mut i: usize = start;
        while i < end
            invariant
                *self == pre,
                self.wf(),
                start <= i <= end,
                end <= self.stack@.len(),
                bytes@ == self.stack@.subrange(start as int, i as int),
            decreases end - i,
        {
            let b = self.stack[i];
            bytes.push(b);
            i += 1;
            proof {
                assert(bytes@ =~= self.stack@.subrange(start as int, i as int));
            }
        }
        self.output.push(OutputEvent::Stack(bytes));
        proof {
            assert(self.output@.subrange(0, pre.output@.len() as int) =~= pre.output@);
        }

        Ok(())
    }
}

} // verus!
