//! Transfers between registers: TAX, TXA, TAY, TYA, TSX, TXS.

use vstd::prelude::*;
use crate::state::{State, CPU};

verus! {

impl State {
    /// TAX: X takes the accumulator; Zero and Negative follow it.
    pub open spec fn tax(self) -> State {
        State { x: self.a, ..self }.flagged(self.a)
    }

    /// TXA: the accumulator takes X; Zero and Negative follow it.
    pub open spec fn txa(self) -> State {
        State { a: self.x, ..self }.flagged(self.x)
    }

    /// TAY: Y takes the accumulator; Zero and Negative follow it.
    pub open spec fn tay(self) -> State {
        State { y: self.a, ..self }.flagged(self.a)
    }

    /// TYA: the accumulator takes Y; Zero and Negative follow it.
    pub open spec fn tya(self) -> State {
        State { a: self.y, ..self }.flagged(self.y)
    }

    /// TSX: X takes the stack pointer; Zero and Negative follow it.
    pub open spec fn tsx(self) -> State {
        State { x: self.sp, ..self }.flagged(self.sp)
    }

    /// TXS: the stack pointer takes X. No flag changes.
    pub open spec fn txs(self) -> State {
        State { sp: self.x, ..self }
    }
}

impl CPU {
    /// TAX: copies the accumulator to X.
    pub fn tax(&mut self)
        ensures
            final(self)@ == old(self)@.tax(),
    {
        self.register_x = self.register_a;
        self.update_zero_and_negative_flags(self.register_x);
    }

    /// TXA: copies X to the accumulator.
    pub fn txa(&mut self)
        ensures
            final(self)@ == old(self)@.txa(),
    {
        self.register_a = self.register_x;
        self.update_zero_and_negative_flags(self.register_a);
    }

    /// TAY: copies the accumulator to Y.
    pub fn tay(&mut self)
        ensures
            final(self)@ == old(self)@.tay(),
    {
        self.register_y = self.register_a;
        self.update_zero_and_negative_flags(self.register_y);
    }

    /// TYA: copies Y to the accumulator.
    pub fn tya(&mut self)
        ensures
            final(self)@ == old(self)@.tya(),
    {
        self.register_a = self.register_y;
        self.update_zero_and_negative_flags(self.register_a);
    }

    /// TSX: copies the stack pointer to X.
    pub fn tsx(&mut self)
        ensures
            final(self)@ == old(self)@.tsx(),
    {
        self.register_x = self.stackpointer;
        self.update_zero_and_negative_flags(self.register_x);
    }

    /// TXS: copies X to the stack pointer. No flag changes.
    pub fn txs(&mut self)
        ensures
            final(self)@ == old(self)@.txs(),
    {
        self.stackpointer = self.register_x;
    }
}

} // verus!
