//! The register file: one 64-bit cell per register identifier, with
//! narrowing reads of the low-order bytes at every operation width.

use vstd::prelude::*;

use crate::constant::{Byte, Half, Quarter, Word, REGISTER_AMOUNT};
use crate::register::Register;

verus! {

/// Narrowing reads of a register file. A read at a width below 64 bits
/// yields the low-order bytes of the cell, little-endian.
pub trait RegisterOperations {
    /// The cells of the register file.
    spec fn regs(&self) -> Seq<Word>;

    /// One cell per register identifier.
    spec fn valid(&self) -> bool;

    fn get_reg_as_byte(&self, register: Register) -> (v: Byte)
        requires
            self.valid(),
        ensures
            v == (self.regs()[register.spec_index()] % 0x100) as Byte,
    ;

    fn get_reg_as_quarter(&self, register: Register) -> (v: Quarter)
        requires
            self.valid(),
        ensures
            v == (self.regs()[register.spec_index()] % 0x1_0000) as Quarter,
    ;

    fn get_reg_as_half(&self, register: Register) -> (v: Half)
        requires
            self.valid(),
        ensures
            v == (self.regs()[register.spec_index()] % 0x1_0000_0000) as Half,
    ;

    fn get_reg(&self, register: Register) -> (v: Word)
        requires
            self.valid(),
        ensures
            v == self.regs()[register.spec_index()],
    ;
}

/// The register file itself: a fixed-size, densely indexed array of 64-bit
/// cells, initialized to zero.
#[derive(Debug, PartialEq, Eq)]
pub struct Registers {
    cells: Vec<Word>,
}

impl View for Registers {
    type V = Seq<Word>;

    closed spec fn view(&self) -> Seq<Word> {
        self.cells@
    }
}

impl Registers {
    /// One cell per register identifier.
    pub open spec fn wf(&self) -> bool {
        self@.len() == REGISTER_AMOUNT
    }

    /// A fresh register file, all cells zero.
    pub fn new() -> (r: Registers)
        ensures
            r.wf(),
            r@ == Seq::new(REGISTER_AMOUNT as nat, |i: int| 0u64),
    {
        let cells: Vec<Word> = vec![0u64; REGISTER_AMOUNT];
        proof {
            assert(cells@ =~= Seq::new(REGISTER_AMOUNT as nat, |i: int| 0u64));
        }
        Registers { cells }
    }

    /// Writes a full 64-bit value into the given register's cell.
    pub fn set_reg(&mut self, register: Register, value: Word)
        requires
            old(self).wf(),
        ensures
            final(self).wf(),
            final(self)@ == old(self)@.update(register.spec_index(), value),
    {
        let i = register.index();
        self.cells[i] = value;
    }
}

impl RegisterOperations for Registers {
    open spec fn regs(&self) -> Seq<Word> {
        self.view()
    }

    open spec fn valid(&self) -> bool {
        self.wf()
    }

    fn get_reg_as_byte(&self, register: Register) -> (v: Byte) {
        (self.cells[register.index()] % 0x100) as Byte
    }

    fn get_reg_as_quarter(&self, register: Register) -> (v: Quarter) {
        (self.cells[register.index()] % 0x1_0000) as Quarter
    }

    fn get_reg_as_half(&self, register: Register) -> (v: Half) {
        (self.cells[register.index()] % 0x1_0000_0000) as Half
    }

    fn get_reg(&self, register: Register) -> (v: Word) {
        self.cells[register.index()]
    }
}

} // verus!
