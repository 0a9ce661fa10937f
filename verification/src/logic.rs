//! Logic on the accumulator: AND, ORA, EOR, and the bit test BIT.

use vstd::prelude::*;
use crate::addressing::AddressingMode;
use crate::flags::{put_flag, with_flag, NEGATIVE_FLAG, OVERFOW_FLAG, ZERO_FLAG};
use crate::state::{State, CPU};

verus! {

impl State {
    /// AND: the accumulator keeps the bits that the operand has too; Zero
    /// and Negative follow it.
    pub open spec fn and(self, mode: AddressingMode) -> State {
        State { a: self.a & self.operand(mode), ..self }.flagged(self.a & self.operand(mode))
    }

    /// ORA: the accumulator gains the bits of the operand; Zero and Negative
    /// follow it.
    pub open spec fn ora(self, mode: AddressingMode) -> State {
        State { a: self.a | self.operand(mode), ..self }.flagged(self.a | self.operand(mode))
    }

    /// EOR: the accumulator flips the bits that the operand has; Zero and
    /// Negative follow it.
    pub open spec fn eor(self, mode: AddressingMode) -> State {
        State { a: self.a ^ self.operand(mode), ..self }.flagged(self.a ^ self.operand(mode))
    }

    /// BIT: Zero tells whether the accumulator and the operand share no bit;
    /// Overflow takes bit 6 of the operand and Negative its bit 7. The
    /// accumulator does not change.
    pub open spec fn bit(self, mode: AddressingMode) -> State {
        let m = self.operand(mode);
        State {
            p: with_flag(
                with_flag(with_flag(self.p, ZERO_FLAG, self.a & m == 0), OVERFOW_FLAG, m & 0x40 != 0),
                NEGATIVE_FLAG,
                m >= 0x80,
            ),
            ..self
        }
    }
}

impl CPU {
    /// AND: bitwise and with the accumulator.
    pub fn and(&mut self, mode: &AddressingMode)
        requires
            mode.resolves(),
        ensures
            final(self)@ == old(self)@.and(*mode),
    {
        let value = self.fetch_operand(mode);
        self.register_a = self.register_a & value;
        self.update_zero_and_negative_flags(self.register_a);
    }

    /// ORA: bitwise or with the accumulator.
    pub fn ora(&mut self, mode: &AddressingMode)
        requires
            mode.resolves(),
        ensures
            final(self)@ == old(self)@.ora(*mode),
    {
        let value = self.fetch_operand(mode);
        self.register_a = self.register_a | value;
        self.update_zero_and_negative_flags(self.register_a);
    }

    /// EOR: bitwise exclusive or with the accumulator.
    pub fn eor(&mut self, mode: &AddressingMode)
        requires
            mode.resolves(),
        ensures
            final(self)@ == old(self)@.eor(*mode),
    {
        let value = self.fetch_operand(mode);
        self.register_a = self.register_a ^ value;
        self.update_zero_and_negative_flags(self.register_a);
    }

    /// BIT: tests bits of memory against the accumulator.
    pub fn bit(&mut self, mode: &AddressingMode)
        requires
            mode.resolves(),
        ensures
            final(self)@ == old(self)@.bit(*mode),
    {
        let value = self.fetch_operand(mode);
        self.status = put_flag(self.status, ZERO_FLAG, self.register_a & value == 0);
        self.status = put_flag(self.status, OVERFOW_FLAG, value & 0x40 != 0);
        self.status = put_flag(self.status, NEGATIVE_FLAG, value >= 0x80);
    }
}

} // verus!
