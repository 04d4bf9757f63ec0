//! The stack: a fixed-capacity byte buffer addressed by the stack pointer
//! register, which holds the next free offset. Growing is push (write the
//! width's bytes little-endian, advance the pointer), shrinking is pop
//! (retreat the pointer, read the width's bytes). Pushing past the
//! capacity and popping below zero are fatal failures that leave the
//! machine untouched; so is a stack pointer found beyond the capacity.

use vstd::prelude::*;

use crate::constant::{Byte, Half, Quarter, Word};
use crate::error::ExecuteError;
use crate::execute::{reg_byte, reg_half, reg_quarter, reg_word};
use crate::instruction::{PopInstruction, PushInstruction};
use crate::register::Register;
use crate::registers::RegisterOperations;
use crate::Processor;

verus! {

/// The buffer `s` with `bytes` written at offset `at`.
pub open spec fn write_bytes(s: Seq<u8>, at: int, bytes: Seq<u8>) -> Seq<u8> {
    Seq::new(
        s.len(),
        |i: int|
            if at <= i < at + bytes.len() {
                bytes[i - at]
            } else {
                s[i]
            },
    )
}

/// An 8-bit value as its single stack byte.
pub open spec fn byte_le_bytes(v: Byte) -> Seq<u8> {
    seq![v]
}

/// A 16-bit value as its two stack bytes, little-endian.
pub open spec fn quarter_le_bytes(v: Quarter) -> Seq<u8> {
    seq![(v % 0x100) as u8, ((v / 0x100) % 0x100) as u8]
}

/// A 32-bit value as its four stack bytes, little-endian.
pub open spec fn half_le_bytes(v: Half) -> Seq<u8> {
    seq![
        (v % 0x100) as u8,
        ((v / 0x100) % 0x100) as u8,
        ((v / 0x1_0000) % 0x100) as u8,
        ((v / 0x100_0000) % 0x100) as u8,
    ]
}

/// A 64-bit value as its eight stack bytes, little-endian.
pub open spec fn word_le_bytes(v: Word) -> Seq<u8> {
    seq![
        (v % 0x100) as u8,
        ((v / 0x100) % 0x100) as u8,
        ((v / 0x1_0000) % 0x100) as u8,
        ((v / 0x100_0000) % 0x100) as u8,
        ((v / 0x1_0000_0000) % 0x100) as u8,
        ((v / 0x100_0000_0000) % 0x100) as u8,
        ((v / 0x1_0000_0000_0000) % 0x100) as u8,
        ((v / 0x100_0000_0000_0000) % 0x100) as u8,
    ]
}

/// The 16-bit value two little-endian stack bytes encode.
pub open spec fn quarter_from_le_bytes(b: Seq<u8>) -> Quarter {
    (b[0] + b[1] * 0x100) as Quarter
}

/// The 32-bit value four little-endian stack bytes encode.
pub open spec fn half_from_le_bytes(b: Seq<u8>) -> Half {
    (b[0] + b[1] * 0x100 + b[2] * 0x1_0000 + b[3] * 0x100_0000) as Half
}

/// The 64-bit value eight little-endian stack bytes encode.
pub open spec fn word_from_le_bytes(b: Seq<u8>) -> Word {
    (b[0] + b[1] * 0x100 + b[2] * 0x1_0000 + b[3] * 0x100_0000 + b[4] * 0x1_0000_0000 + b[5]
        * 0x100_0000_0000 + b[6] * 0x1_0000_0000_0000 + b[7] * 0x100_0000_0000_0000) as Word
}

/// What pushing the given bytes does: if they fit below the capacity they
/// are written at the stack pointer, which advances past them; otherwise
/// the push fails with `StackOverflow` and nothing changes.
pub open spec fn push_bytes_effect(
    pre: Processor,
    post: Processor,
    bytes: Seq<u8>,
    res: Result<(), ExecuteError>,
) -> bool {
    let sp = reg_word(pre.registers@, Register::SP);
    if sp + bytes.len() <= pre.stack@.len() {
        &&& post.registers@ == pre.registers@.update(
            Register::SP.spec_index(),
            (sp + bytes.len()) as Word,
        )
        &&& post.stack@ == write_bytes(pre.stack@, sp as int, bytes)
        &&& post.same_except_stack(pre)
        &&& res == Ok::<(), ExecuteError>(())
    } else {
        &&& post == pre
        &&& res == Err::<(), ExecuteError>(ExecuteError::StackOverflow)
    }
}

/// Whether a pop of `n` bytes is possible: the stack pointer must stand
/// within the capacity and at least `n` bytes above the bottom.
pub open spec fn pop_allowed(pre: Processor, n: int) -> bool {
    let sp = reg_word(pre.registers@, Register::SP);
    sp <= pre.stack@.len() && n <= sp
}

/// The failure a disallowed pop of `n` bytes reports: a stack pointer
/// beyond the capacity is an overflow, too few bytes an underflow.
pub open spec fn pop_failure(pre: Processor, n: int) -> ExecuteError {
    let sp = reg_word(pre.registers@, Register::SP);
    if sp > pre.stack@.len() {
        ExecuteError::StackOverflow
    } else {
        ExecuteError::StackUnderflow
    }
}

/// The `n` bytes directly below the stack pointer, the ones a pop of `n`
/// bytes reads.
pub open spec fn pop_window(pre: Processor, n: int) -> Seq<u8> {
    let sp = reg_word(pre.registers@, Register::SP);
    pre.stack@.subrange(sp - n, sp as int)
}

/// What popping `n` bytes does to the machine when it is allowed: the
/// stack pointer retreats by `n` and nothing else changes; the buffer
/// keeps its bytes.
pub open spec fn pop_retreat_effect(pre: Processor, post: Processor, n: int) -> bool {
    let sp = reg_word(pre.registers@, Register::SP);
    &&& post.registers@ == pre.registers@.update(Register::SP.spec_index(), (sp - n) as Word)
    &&& post.stack == pre.stack
    &&& post.same_except_stack(pre)
}

impl Processor {
    /// Pushes one byte at the stack pointer.
    pub fn push_byte_value(&mut self, value: Byte) -> (res: Result<(), ExecuteError>)
        requires
            old(self).wf(),
        ensures
            final(self).wf(),
            push_bytes_effect(*old(self), *final(self), byte_le_bytes(value), res),
    {
        let sp = self.registers.get_reg(Register::SP);
        let len = self.stack.len();
        if len < 1 || sp > (len - 1) as u64 {
            return Err(ExecuteError::StackOverflow);
        }
        let base = sp as usize;
        self.stack[base] = value;
        self.registers.set_reg(Register::SP, sp + 1);
        proof {
            assert(self.stack@ =~= write_bytes(
                old(self).stack@,
                sp as int,
                byte_le_bytes(value),
            ));
        }
        Ok(())
    }

    /// Pushes a 16-bit value at the stack pointer, little-endian.
    pub fn push_quarter_value(&mut self, value: Quarter) -> (res: Result<(), ExecuteError>)
        requires
            old(self).wf(),
        ensures
            final(self).wf(),
            push_bytes_effect(*old(self), *final(self), quarter_le_bytes(value), res),
    {
        let sp = self.registers.get_reg(Register::SP);
        let len = self.stack.len();
        if len < 2 || sp > (len - 2) as u64 {
            return Err(ExecuteError::StackOverflow);
        }
        let base = sp as usize;
        self.stack[base] = (value % 0x100) as u8;
        self.stack[base + 1] = ((value / 0x100) % 0x100) as u8;
        self.registers.set_reg(Register::SP, sp + 2);
        proof {
            assert(self.stack@ =~= write_bytes(
                old(self).stack@,
                sp as int,
                quarter_le_bytes(value),
            ));
        }
        Ok(())
    }

    /// Pushes a 32-bit value at the stack pointer, little-endian.
    pub fn push_half_value(&mut self, value: Half) -> (res: Result<(), ExecuteError>)
        requires
            old(self).wf(),
        ensures
            final(self).wf(),
            push_bytes_effect(*old(self), *final(self), half_le_bytes(value), res),
    {
        let sp = self.registers.get_reg(Register::SP);
        let len = self.stack.len();
        if len < 4 || sp > (len - 4) as u64 {
            return Err(ExecuteError::StackOverflow);
        }
        let base = sp as usize;
        self.stack[base] = (value % 0x100) as u8;
        self.stack[base + 1] = ((value / 0x100) % 0x100) as u8;
        self.stack[base + 2] = ((value / 0x1_0000) % 0x100) as u8;
        self.stack[base + 3] = ((value / 0x100_0000) % 0x100) as u8;
        self.registers.set_reg(Register::SP, sp + 4);
        proof {
            assert(self.stack@ =~= write_bytes(
                old(self).stack@,
                sp as int,
                half_le_bytes(value),
            ));
        }
        Ok(())
    }

    /// Pushes a 64-bit value at the stack pointer, little-endian.
    pub fn push_word_value(&mut self, value: Word) -> (res: Result<(), ExecuteError>)
        requires
            old(self).wf(),
        ensures
            final(self).wf(),
            push_bytes_effect(*old(self), *final(self), word_le_bytes(value), res),
    {
        let sp = self.registers.get_reg(Register::SP);
        let len = self.stack.len();
        if len < 8 || sp > (len - 8) as u64 {
            return Err(ExecuteError::StackOverflow);
        }
        let base = sp as usize;
        self.stack[base] = (value % 0x100) as u8;
        self.stack[base + 1] = ((value / 0x100) % 0x100) as u8;
        self.stack[base + 2] = ((value / 0x1_0000) % 0x100) as u8;
        self.stack[base + 3] = ((value / 0x100_0000) % 0x100) as u8;
        self.stack[base + 4] = ((value / 0x1_0000_0000) % 0x100) as u8;
        self.stack[base + 5] = ((value / 0x100_0000_0000) % 0x100) as u8;
        self.stack[base + 6] = ((value / 0x1_0000_0000_0000) % 0x100) as u8;
        self.stack[base + 7] = ((value / 0x100_0000_0000_0000) % 0x100) as u8;
        self.registers.set_reg(Register::SP, sp + 8);
        proof {
            assert(self.stack@ =~= write_bytes(
                old(self).stack@,
                sp as int,
                word_le_bytes(value),
            ));
        }
        Ok(())
    }

    /// Pops one byte: retreats the stack pointer by one and reads the
    /// byte it then points at.
    pub fn pop_byte_value(&mut self) -> (res: Result<Byte, ExecuteError>)
        requires
            old(self).wf(),
        ensures
            final(self).wf(),
            if pop_allowed(*old(self), 1) {
                &&& pop_retreat_effect(*old(self), *final(self), 1)
                &&& res == Ok::<Byte, ExecuteError>(pop_window(*old(self), 1)[0])
            } else {
                &&& *final(self) == *old(self)
                &&& res == Err::<Byte, ExecuteError>(pop_failure(*old(self), 1))
            },
    {
        let sp = self.registers.get_reg(Register::SP);
        let len = self.stack.len();
        if sp > len as u64 {
            return Err(ExecuteError::StackOverflow);
        }
        if sp < 1 {
            return Err(ExecuteError::StackUnderflow);
        }
        let base = (sp as usize) - 1;
        let value = self.stack[base];
        self.registers.set_reg(Register::SP, sp - 1);
        Ok(value)
    }

    /// Pops a 16-bit value: retreats the stack pointer by two and reads
    /// the bytes little-endian.
    pub fn pop_quarter_value(&mut self) -> (res: Result<Quarter, ExecuteError>)
        requires
            old(self).wf(),
        ensures
            final(self).wf(),
            if pop_allowed(*old(self), 2) {
                &&& pop_retreat_effect(*old(self), *final(self), 2)
                &&& res == Ok::<Quarter, ExecuteError>(
                    quarter_from_le_bytes(pop_window(*old(self), 2)),
                )
            } else {
                &&& *final(self) == *old(self)
                &&& res == Err::<Quarter, ExecuteError>(pop_failure(*old(self), 2))
            },
    {
        let sp = self.registers.get_reg(Register::SP);
        let len = self.stack.len();
        if sp > len as u64 {
            return Err(ExecuteError::StackOverflow);
        }
        if sp < 2 {
            return Err(ExecuteError::StackUnderflow);
        }
        let base = (sp as usize) - 2;
        let b0 = self.stack[base];
        let b1 = self.stack[base + 1];
        let value = b0 as Quarter + (b1 as Quarter) * 0x100;
        self.registers.set_reg(Register::SP, sp - 2);
        Ok(value)
    }

    /// Pops a 32-bit value: retreats the stack pointer by four and reads
    /// the bytes little-endian.
    pub fn pop_half_value(&mut self) -> (res: Result<Half, ExecuteError>)
        requires
            old(self).wf(),
        ensures
            final(self).wf(),
            if pop_allowed(*old(self), 4) {
                &&& pop_retreat_effect(*old(self), *final(self), 4)
                &&& res == Ok::<Half, ExecuteError>(
                    half_from_le_bytes(pop_window(*old(self), 4)),
                )
            } else {
                &&& *final(self) == *old(self)
                &&& res == Err::<Half, ExecuteError>(pop_failure(*old(self), 4))
            },
    {
        let sp = self.registers.get_reg(Register::SP);
        let len = self.stack.len();
        if sp > len as u64 {
            return Err(ExecuteError::StackOverflow);
        }
        if sp < 4 {
            return Err(ExecuteError::StackUnderflow);
        }
        let base = (sp as usize) - 4;
        let b0 = self.stack[base];
        let b1 = self.stack[base + 1];
        let b2 = self.stack[base + 2];
        let b3 = self.stack[base + 3];
        let value = b0 as Half + (b1 as Half) * 0x100 + (b2 as Half) * 0x1_0000 + (b3 as Half)
            * 0x100_0000;
        self.registers.set_reg(Register::SP, sp - 4);
        Ok(value)
    }

    /// Pops a 64-bit value: retreats the stack pointer by eight and reads
    /// the bytes little-endian.
    pub fn pop_word_value(&mut self) -> (res: Result<Word, ExecuteError>)
        requires
            old(self).wf(),
        ensures
            final(self).wf(),
            if pop_allowed(*old(self), 8) {
                &&& pop_retreat_effect(*old(self), *final(self), 8)
                &&& res == Ok::<Word, ExecuteError>(
                    word_from_le_bytes(pop_window(*old(self), 8)),
                )
            } else {
                &&& *final(self) == *old(self)
                &&& res == Err::<Word, ExecuteError>(pop_failure(*old(self), 8))
            },
    {
        let sp = self.registers.get_reg(Register::SP);
        let len = self.stack.len();
        if sp > len as u64 {
            return Err(ExecuteError::StackOverflow);
        }
        if sp < 8 {
            return Err(ExecuteError::StackUnderflow);
        }
        let base = (sp as usize) - 8;
        let b0 = self.stack[base];
        let b1 = self.stack[base + 1];
        let b2 = self.stack[base + 2];
        let b3 = self.stack[base + 3];
        let b4 = self.stack[base + 4];
        let b5 = self.stack[base + 5];
        let b6 = self.stack[base + 6];
        let b7 = self.stack[base + 7];
        let value = b0 as Word + (b1 as Word) * 0x100 + (b2 as Word) * 0x1_0000 + (b3 as Word)
            * 0x100_0000 + (b4 as Word) * 0x1_0000_0000 + (b5 as Word) * 0x100_0000_0000 + (
        b6 as Word) * 0x1_0000_0000_0000 + (b7 as Word) * 0x100_0000_0000_0000;
        self.registers.set_reg(Register::SP, sp - 8);
        Ok(value)
    }
}

/// What executing a push instruction does: the named register's value at
/// the instruction's width is pushed, little-endian.
pub open spec fn push_effect(
    pre: Processor,
    post: Processor,
    i: PushInstruction,
    res: Result<(), ExecuteError>,
) -> bool {
    match i {
        PushInstruction::Byte(r) => push_bytes_effect(
            pre,
            post,
            byte_le_bytes(reg_byte(pre.registers@, r)),
            res,
        ),
        PushInstruction::Quarter(r) => push_bytes_effect(
            pre,
            post,
            quarter_le_bytes(reg_quarter(pre.registers@, r)),
            res,
        ),
        PushInstruction::Half(r) => push_bytes_effect(
            pre,
            post,
            half_le_bytes(reg_half(pre.registers@, r)),
            res,
        ),
        PushInstruction::Word(r) => push_bytes_effect(
            pre,
            post,
            word_le_bytes(reg_word(pre.registers@, r)),
            res,
        ),
    }
}

/// What executing a pop instruction does: the width's bytes below the
/// stack pointer are read little-endian into the named register,
/// zero-extended, and the pointer retreats past them. A disallowed pop
/// fails and changes nothing. The flags are untouched either way.
pub open spec fn pop_effect(
    pre: Processor,
    post: Processor,
    i: PopInstruction,
    res: Result<(), ExecuteError>,
) -> bool {
    let n: int = match i {
        PopInstruction::Byte(_) => 1,
        PopInstruction::Quarter(_) => 2,
        PopInstruction::Half(_) => 4,
        PopInstruction::Word(_) => 8,
    };
    let r: Register = match i {
        PopInstruction::Byte(r) => r,
        PopInstruction::Quarter(r) => r,
        PopInstruction::Half(r) => r,
        PopInstruction::Word(r) => r,
    };
    let value: Word = match i {
        PopInstruction::Byte(_) => pop_window(pre, 1)[0] as Word,
        PopInstruction::Quarter(_) => quarter_from_le_bytes(pop_window(pre, 2)) as Word,
        PopInstruction::Half(_) => half_from_le_bytes(pop_window(pre, 4)) as Word,
        PopInstruction::Word(_) => word_from_le_bytes(pop_window(pre, 8)),
    };
    if pop_allowed(pre, n) {
        let sp = reg_word(pre.registers@, Register::SP);
        &&& post.registers@ == pre.registers@.update(
            Register::SP.spec_index(),
            (sp - n) as Word,
        ).update(r.spec_index(), value)
        &&& post.stack == pre.stack
        &&& post.same_except_stack(pre)
        &&& res == Ok::<(), ExecuteError>(())
    } else {
        &&& post == pre
        &&& res == Err::<(), ExecuteError>(pop_failure(pre, n))
    }
}

impl Processor {
    pub fn push(&mut self, instruction: PushInstruction) -> (res: Result<(), ExecuteError>)
        requires
            old(self).wf(),
        ensures
            final(self).wf(),
            push_effect(*old(self), *final(self), instruction, res),
    {
        match instruction {
            PushInstruction::Byte(r) => {
                let v = self.registers.get_reg_as_byte(r);
                self.push_byte_value(v)
            },
            PushInstruction::Quarter(r) => {
                let v = self.registers.get_reg_as_quarter(r);
                self.push_quarter_value(v)
            },
            PushInstruction::Half(r) => {
                let v = self.registers.get_reg_as_half(r);
                self.push_half_value(v)
            },
            PushInstruction::Word(r) => {
                let v = self.registers.get_reg(r);
                self.push_word_value(v)
            },
        }
    }

    pub fn pop(&mut self, instruction: PopInstruction) -> (res: Result<(), ExecuteError>)
        requires
            old(self).wf(),
        ensures
            final(self).wf(),
            pop_effect(*old(self), *final(self), instruction, res),
    {
        match instruction {
            PopInstruction::Byte(r) => {
                let v = self.pop_byte_value()?;
                self.registers.set_reg(r, v as Word);
                Ok(())
            },
            PopInstruction::Quarter(r) => {
                let v = self.pop_quarter_value()?;
                self.registers.set_reg(r, v as Word);
                Ok(())
            },
            PopInstruction::Half(r) => {
                let v = self.pop_half_value()?;
                self.registers.set_reg(r, v as Word);
                Ok(())
            },
            PopInstruction::Word(r) => {
                let v = self.pop_word_value()?;
                self.registers.set_reg(r, v);
                Ok(())
            },
        }
    }
}

} // verus!
