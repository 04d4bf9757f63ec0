//! A virtual processor: an in-process CPU emulator that decodes a textual
//! instruction stream into a typed instruction set and executes it against
//! an isolated machine state of registers, flags, a call stack and a
//! program counter.

use vstd::prelude::*;

pub mod arith;
pub mod constant;
pub mod decode;
pub mod error;
pub mod execute;
pub mod flags;
pub mod instruction;
pub mod laws;
pub mod operand;
pub mod output;
pub mod program;
pub mod register;
pub mod registers;

use crate::constant::STACK_SIZE;
use crate::decode::{decode, spec_decode_err, spec_decode_ok};
use crate::error::RunError;
use crate::execute::{execute_effect, lemma_execute_effect_bookkeeping};
use crate::flags::Flags;
use crate::instruction::Instruction;
use crate::output::OutputEvent;
use crate::program::ProgramLine;
use crate::registers::Registers;

verus! {

/// The machine: the register file, the condition flags, the stack buffer,
/// the program counter and the running flag, plus execution bookkeeping.
/// One processor executes one instruction stream sequentially; the running
/// flag transitions from `true` to `false` exactly once, through the stop
/// instruction, the end of input, or a fatal failure.
pub struct Processor {
    pub registers: Registers,
    pub flags: Flags,
    /// The stack buffer. The stack pointer, held in the dedicated stack
    /// pointer register, is the next free offset into this buffer.
    pub stack: Vec<u8>,
    /// The index of the next instruction line to fetch.
    pub program_counter: u64,
    pub running: bool,
    /// How many instructions have executed so far; saturates rather than
    /// wrap.
    pub instructions_executed: u64,
    /// Whether stopping reports the instruction count to the output queue.
    pub print_instructions_executed: bool,
    /// Pending output events, in the order they were produced, for the
    /// external output collaborator to drain and render.
    pub output: Vec<OutputEvent>,
}

impl Processor {
    /// The machine's well-formedness: the register file holds one cell per
    /// register identifier.
    pub open spec fn wf(&self) -> bool {
        self.registers.wf()
    }

    /// Everything but the register file is as it was in `pre`.
    pub open spec fn same_except_registers(self, pre: Processor) -> bool {
        &&& self.flags == pre.flags
        &&& self.stack == pre.stack
        &&& self.program_counter == pre.program_counter
        &&& self.running == pre.running
        &&& self.instructions_executed == pre.instructions_executed
        &&& self.print_instructions_executed == pre.print_instructions_executed
        &&& self.output == pre.output
    }

    /// Everything but the register file and the flags is as it was in
    /// `pre`.
    pub open spec fn same_except_registers_and_flags(self, pre: Processor) -> bool {
        &&& self.stack == pre.stack
        &&& self.program_counter == pre.program_counter
        &&& self.running == pre.running
        &&& self.instructions_executed == pre.instructions_executed
        &&& self.print_instructions_executed == pre.print_instructions_executed
        &&& self.output == pre.output
    }

    /// Everything but the flags is as it was in `pre`.
    pub open spec fn same_except_flags(self, pre: Processor) -> bool {
        &&& self.registers == pre.registers
        &&& self.stack == pre.stack
        &&& self.program_counter == pre.program_counter
        &&& self.running == pre.running
        &&& self.instructions_executed == pre.instructions_executed
        &&& self.print_instructions_executed == pre.print_instructions_executed
        &&& self.output == pre.output
    }

    /// The flags, the program counter, the running flag, the bookkeeping
    /// and the output queue are as they were in `pre`. The register file
    /// and the stack buffer are deliberately left unconstrained: every
    /// stack operation's contract pins them with its own exact update
    /// clause beside this predicate.
    pub open spec fn same_except_stack(self, pre: Processor) -> bool {
        &&& self.flags == pre.flags
        &&& self.program_counter == pre.program_counter
        &&& self.running == pre.running
        &&& self.instructions_executed == pre.instructions_executed
        &&& self.print_instructions_executed == pre.print_instructions_executed
        &&& self.output == pre.output
    }

    /// A fresh machine: zeroed registers, cleared flags, a zeroed stack of
    /// the given capacity, the program counter at zero, running.
    pub fn with_stack_capacity(capacity: usize) -> (p: Processor)
        ensures
            p.wf(),
            p.registers@ == Seq::new(
                crate::constant::REGISTER_AMOUNT as nat,
                |i: int| 0u64,
            ),
            p.flags == (Flags { zero: false, overflow: false, sign: false }),
            p.stack@ == Seq::new(capacity as nat, |i: int| 0u8),
            p.program_counter == 0,
            p.running,
            p.instructions_executed == 0,
            !p.print_instructions_executed,
            p.output@ == Seq::<OutputEvent>::empty(),
    {
        let stack: Vec<u8> = vec![0u8; capacity];
        proof {
            assert(stack@ =~= Seq::new(capacity as nat, |i: int| 0u8));
        }
        Processor {
            registers: Registers::new(),
            flags: Flags::new(),
            stack,
            program_counter: 0,
            running: true,
            instructions_executed: 0,
            print_instructions_executed: false,
            output: Vec::new(),
        }
    }

    /// A fresh machine with the full four-mebibyte stack.
    pub fn new() -> (p: Processor)
        ensures
            p.wf(),
            p.registers@ == Seq::new(
                crate::constant::REGISTER_AMOUNT as nat,
                |i: int| 0u64,
            ),
            p.flags == (Flags { zero: false, overflow: false, sign: false }),
            p.stack@ == Seq::new(STACK_SIZE as nat, |i: int| 0u8),
            p.program_counter == 0,
            p.running,
            p.instructions_executed == 0,
            !p.print_instructions_executed,
            p.output@ == Seq::<OutputEvent>::empty(),
    {
        Processor::with_stack_capacity(STACK_SIZE)
    }
}

/// The machine as it stands after the driving loop's bookkeeping for one
/// successfully executed instruction: unless the instruction redirected
/// control, the program counter moves to the next line, and the
/// instruction counter grows; both saturate rather than wrap.
pub open spec fn advance_bookkeeping(mid: Processor, i: Instruction) -> Processor {
    Processor {
        program_counter: if i.spec_redirects_pc() || mid.program_counter == u64::MAX {
            mid.program_counter
        } else {
            (mid.program_counter + 1) as u64
        },
        instructions_executed: if mid.instructions_executed == u64::MAX {
            mid.instructions_executed
        } else {
            (mid.instructions_executed + 1) as u64
        },
        ..mid
    }
}

/// What one cycle on a decoded instruction does: the instruction's
/// execute effect, followed on success by the driving loop's bookkeeping;
/// an execute failure stops the machine and is reported, with no
/// bookkeeping.
pub open spec fn step_effect(
    pre: Processor,
    post: Processor,
    i: Instruction,
    res: Result<(), RunError>,
) -> bool {
    match res {
        Ok(()) => exists|mid: Processor|
            #[trigger] execute_effect(pre, mid, i, Ok::<(), crate::error::ExecuteError>(()))
                && post == advance_bookkeeping(mid, i),
        Err(e) => e is Execute && exists|mid: Processor|
            #[trigger] execute_effect(
                pre,
                mid,
                i,
                Err::<(), crate::error::ExecuteError>(e->Execute_0),
            ) && post == (Processor { running: false, ..mid }),
    }
}

/// What one whole cycle on the given line does, decode failures
/// included: a line that decodes has its instruction's step effect; one
/// that does not stops the machine, leaves it otherwise untouched, and
/// reports the exact decode error.
pub open spec fn step_outcome(
    pre: Processor,
    post: Processor,
    line: ProgramLine,
    res: Result<(), RunError>,
) -> bool {
    let toks = line.operands.deep_view();
    match spec_decode_ok(line.opcode@, toks) {
        None => {
            &&& res is Err
            &&& res->Err_0 is Decode
            &&& spec_decode_err(line.opcode@, toks, res->Err_0->Decode_0)
            &&& post == (Processor { running: false, ..pre })
        },
        Some(i) => step_effect(pre, post, i, res),
    }
}

/// Whether the driving loop fetches another line in this state: the
/// machine is still running, the instruction counter is below its
/// ceiling, and the program counter names a line of the program.
pub open spec fn cycle_continues(pre: Processor, program: Seq<ProgramLine>) -> bool {
    &&& pre.running
    &&& pre.instructions_executed < u64::MAX
    &&& pre.program_counter < program.len()
}

/// Whether `trace` records successful cycles of the driving loop on
/// `program`: each adjacent pair of machine states is one cycle, fetched
/// in a state the loop fetches in, and each line executed is the one its
/// state's program counter names.
pub open spec fn is_cycle_trace(program: Seq<ProgramLine>, trace: Seq<Processor>) -> bool {
    forall|k: int|
        0 <= k < trace.len() - 1 ==> {
            &&& cycle_continues(#[trigger] trace[k], program)
            &&& step_outcome(
                trace[k],
                trace[k + 1],
                program[trace[k].program_counter as int],
                Ok::<(), RunError>(()),
            )
        }
}

/// What a whole run does: there is a trace of successful cycles from the
/// starting machine to some reached machine, and then either a clean
/// stop, because the reached machine had stopped, the source was
/// exhausted or the instruction counter reached its ceiling, or the
/// first failing cycle's error, with the machine exactly as that cycle
/// left it.
pub open spec fn run_effect(
    pre: Processor,
    post: Processor,
    program: Seq<ProgramLine>,
    res: Result<(), RunError>,
) -> bool {
    exists|trace: Seq<Processor>|
        {
            &&& #[trigger] is_cycle_trace(program, trace)
            &&& trace.len() >= 1
            &&& trace[0] == pre
            &&& ({
                let m = trace.last();
                match res {
                    Ok(()) => if !m.running {
                        post == m
                    } else {
                        &&& (m.instructions_executed == u64::MAX || m.program_counter
                            >= program.len())
                        &&& post == (Processor { running: false, ..m })
                    },
                    Err(_) => {
                        &&& cycle_continues(m, program)
                        &&& step_outcome(m, post, program[m.program_counter as int], res)
                    },
                }
            })
        }
}

impl Processor {
    /// One fetch-decode-execute cycle on an already fetched line: the
    /// single-step entry point the debugger drives. A decode failure
    /// aborts the run, stopping the machine and leaving it otherwise
    /// untouched; an execute failure stops the machine likewise; on
    /// success the driving loop's bookkeeping advances.
    pub fn step(&mut self, line: &ProgramLine) -> (res: Result<(), RunError>)
        requires
            old(self).wf(),
        ensures
            final(self).wf(),
            step_outcome(*old(self), *final(self), *line, res),
            res is Ok ==> final(self).instructions_executed == (
                if old(self).instructions_executed == u64::MAX {
                    u64::MAX
                } else {
                    (old(self).instructions_executed + 1) as u64
                }
            ),
            res is Err ==> final(self).instructions_executed == old(
                self,
            ).instructions_executed,
    {
        let ghost pre = *self;
        let instruction = match decode(line.opcode.as_str(), &line.operands) {
            Ok(i) => i,
            Err(e) => {
                self.running = false;
                return Err(RunError::Decode(e));
            },
        };
        match self.execute(instruction) {
            Ok(()) => {},
            Err(e) => {
                let ghost mid = *self;
                self.running = false;
                proof {
                    assert(execute_effect(
                        pre,
                        mid,
                        instruction,
                        Err::<(), crate::error::ExecuteError>(e),
                    ));
                    lemma_execute_effect_bookkeeping(
                        pre,
                        mid,
                        instruction,
                        Err::<(), crate::error::ExecuteError>(e),
                    );
                }
                return Err(RunError::Execute(e));
            },
        }
        let ghost mid = *self;
        if !instruction.redirects_pc() {
            if self.program_counter < u64::MAX {
                self.program_counter = self.program_counter + 1;
            }
        }
        if self.instructions_executed < u64::MAX {
            self.instructions_executed = self.instructions_executed + 1;
        }
        proof {
            assert(execute_effect(pre, mid, instruction, Ok::<(), crate::error::ExecuteError>(())));
            lemma_execute_effect_bookkeeping(
                pre,
                mid,
                instruction,
                Ok::<(), crate::error::ExecuteError>(()),
            );
            assert(*self == advance_bookkeeping(mid, instruction));
        }
        Ok(())
    }

    /// The driving loop: while running, fetch the line the program
    /// counter names, decode it, execute it, and advance. The loop ends
    /// when the machine stops, when the source is exhausted, which is an
    /// implicit stop, or when a cycle fails; a failure aborts the whole
    /// run with that cycle's error. A machine whose instruction counter
    /// has reached its ceiling is stopped too: the counter bounds how
    /// much work one run can do.
    pub fn run(&mut self, program: &Vec<ProgramLine>) -> (res: Result<(), RunError>)
        requires
            old(self).wf(),
        ensures
            final(self).wf(),
            !final(self).running,
            run_effect(*old(self), *final(self), program@, res),
            !old(self).running ==> *final(self) == *old(self) && res == Ok::<(), RunError>(()),
    {
        let ghost mut trace: Seq<Processor> = seq![*self];
        if !self.running {
            proof {
                assert(is_cycle_trace(program@, trace));
            }
            return Ok(());
        }
        loop
            invariant
                self.wf(),
                old(self).running,
                is_cycle_trace(program@, trace),
                trace.len() >= 1,
                trace[0] == *old(self),
                trace.last() == *self,
            decreases u64::MAX - self.instructions_executed,
        {
            if !self.running {
                proof {
                    assert(is_cycle_trace(program@, trace));
                }
                return Ok(());
            }
            if self.instructions_executed >= u64::MAX {
                let ghost reached = *self;
                self.running = false;
                proof {
                    assert(is_cycle_trace(program@, trace));
                    assert(*self == (Processor { running: false, ..reached }));
                }
                return Ok(());
            }
            let pc = self.program_counter;
            if pc >= program.len() as u64 {
                let ghost reached = *self;
                self.running = false;
                proof {
                    assert(is_cycle_trace(program@, trace));
                    assert(*self == (Processor { running: false, ..reached }));
                }
                return Ok(());
            }
            let ghost before_cycle = *self;
            let line = &program[pc as usize];
            match self.step(line) {
                Ok(()) => {
                    proof {
                        let prev = trace;
                        trace = trace.push(*self);
                        assert forall|k: int| 0 <= k < trace.len() - 1 implies {
                            &&& cycle_continues(#[trigger] trace[k], program@)
                            &&& step_outcome(
                                trace[k],
                                trace[k + 1],
                                program@[trace[k].program_counter as int],
                                Ok::<(), RunError>(()),
                            )
                        } by {
                            assert(trace[k] == prev[k]);
                            if k < prev.len() - 1 {
                                assert(trace[k + 1] == prev[k + 1]);
                            } else {
                                assert(prev[k] == before_cycle);
                                assert(trace[k + 1] == *self);
                            }
                        }
                    }
                },
                Err(e) => {
                    proof {
                        assert(is_cycle_trace(program@, trace));
                        assert(cycle_continues(before_cycle, program@));
                        assert(step_outcome(
                            before_cycle,
                            *self,
                            program@[before_cycle.program_counter as int],
                            Err::<(), RunError>(e),
                        ));
                    }
                    return Err(e);
                },
            }
        }
    }
}

} // verus!
