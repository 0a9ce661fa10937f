//! Loads and stores: LDA, LDX, LDY, STA, STX, STY.

use vstd::prelude::*;
use crate::addressing::AddressingMode;
use crate::state::{State, CPU};

verus! {

impl State {
    /// LDA: the accumulator takes the operand; Zero and Negative follow it.
    pub open spec fn lda(self, mode: AddressingMode) -> State {
        State { a: self.operand(mode), ..self }.flagged(self.operand(mode))
    }

    /// LDX: X takes the operand; Zero and Negative follow it.
    pub open spec fn ldx(self, mode: AddressingMode) -> State {
        State { x: self.operand(mode), ..self }.flagged(self.operand(mode))
    }

    /// LDY: Y takes the operand; Zero and Negative follow it.
    pub open spec fn ldy(self, mode: AddressingMode) -> State {
        State { y: self.operand(mode), ..self }.flagged(self.operand(mode))
    }

    /// STA: the accumulator is stored at the operand's address.
    pub open spec fn sta(self, mode: AddressingMode) -> State {
        self.write(self.operand_address(mode), self.a)
    }

    /// STX: X is stored at the operand's address.
    pub open spec fn stx(self, mode: AddressingMode) -> State {
        self.write(self.operand_address(mode), self.x)
    }

    /// STY: Y is stored at the operand's address.
    pub open spec fn sty(self, mode: AddressingMode) -> State {
        self.write(self.operand_address(mode), self.y)
    }
}

impl CPU {
    /// LDA: loads the accumulator.
    pub fn lda(&mut self, mode: &AddressingMode)
        requires
            mode.resolves(),
        ensures
            final(self)@ == old(self)@.lda(*mode),
    {
        let value = self.fetch_operand(mode);
        self.register_a = value;
        self.update_zero_and_negative_flags(value);
    }

    /// LDX: loads X.
    pub fn ldx(&mut self, mode: &AddressingMode)
        requires
            mode.resolves(),
        ensures
            final(self)@ == old(self)@.ldx(*mode),
    {
        let value = self.fetch_operand(mode);
        self.register_x = value;
        self.update_zero_and_negative_flags(value);
    }

    /// LDY: loads Y.
    pub fn ldy(&mut self, mode: &AddressingMode)
        requires
            mode.resolves(),
        ensures
            final(self)@ == old(self)@.ldy(*mode),
    {
        let value = self.fetch_operand(mode);
        self.register_y = value;
        self.update_zero_and_negative_flags(value);
    }

    /// STA: stores the accumulator. No flag changes.
    pub fn sta(&mut self, mode: &AddressingMode)
        requires
            mode.resolves(),
        ensures
            final(self)@ == old(self)@.sta(*mode),
    {
        let addr = self.get_operand_address(mode);
        self.mem_write(addr, self.register_a);
    }

    /// STX: stores X. No flag changes.
    pub fn stx(&mut self, mode: &AddressingMode)
        requires
            mode.resolves(),
        ensures
            final(self)@ == old(self)@.stx(*mode),
    {
        let addr = self.get_operand_address(mode);
        self.mem_write(addr, self.register_x);
    }

    /// STY: stores Y. No flag changes.
    pub fn sty(&mut self, mode: &AddressingMode)
        requires
            mode.resolves(),
        ensures
            final(self)@ == old(self)@.sty(*mode),
    {
        let addr = self.get_operand_address(mode);
        self.mem_write(addr, self.register_y);
    }
}

} // verus!
