//! Comparisons: CMP, CPX, CPY.

use vstd::prelude::*;
use crate::addressing::AddressingMode;
use crate::flags::{put_flag, with_flag, CARRY_FLAG, NEGATIVE_FLAG, ZERO_FLAG};
use crate::state::{State, CPU};

verus! {

/// `register - m` modulo 256.
pub open spec fn difference(register: u8, m: u8) -> int {
    (register - m) % 256
}

/// The status byte `p` after comparing `register` with `m`: Carry tells
/// whether the register is at least `m`, Zero whether the two are equal,
/// and Negative whether `register - m` modulo 256 is 128 or more.
pub open spec fn compared(p: u8, register: u8, m: u8) -> u8 {
    with_flag(
        with_flag(with_flag(p, CARRY_FLAG, register >= m), ZERO_FLAG, register == m),
        NEGATIVE_FLAG,
        difference(register, m) >= 0x80,
    )
}

/// `compared` as executable code.
pub fn compare(p: u8, register: u8, m: u8) -> (q: u8)
    ensures
        q == compared(p, register, m),
{
    let result = register.wrapping_sub(m);
    let q = put_flag(p, CARRY_FLAG, register >= m);
    let q = put_flag(q, ZERO_FLAG, register == m);
    put_flag(q, NEGATIVE_FLAG, result >= 0x80)
}

impl State {
    /// CMP: the status byte tells how the accumulator compares with the
    /// operand. Nothing else changes.
    pub open spec fn cmp(self, mode: AddressingMode) -> State {
        State { p: compared(self.p, self.a, self.operand(mode)), ..self }
    }

    /// CPX: the status byte tells how X compares with the operand.
    pub open spec fn cpx(self, mode: AddressingMode) -> State {
        State { p: compared(self.p, self.x, self.operand(mode)), ..self }
    }

    /// CPY: the status byte tells how Y compares with the operand.
    pub open spec fn cpy(self, mode: AddressingMode) -> State {
        State { p: compared(self.p, self.y, self.operand(mode)), ..self }
    }
}

impl CPU {
    /// CMP: compares the accumulator with the operand.
    pub fn cmp(&mut self, mode: &AddressingMode)
        requires
            mode.resolves(),
        ensures
            final(self)@ == old(self)@.cmp(*mode),
    {
        let value = self.fetch_operand(mode);
        self.status = compare(self.status, self.register_a, value);
    }

    /// CPX: compares X with the operand.
    pub fn cpx(&mut self, mode: &AddressingMode)
        requires
            mode.resolves(),
        ensures
            final(self)@ == old(self)@.cpx(*mode),
    {
        let value = self.fetch_operand(mode);
        self.status = compare(self.status, self.register_x, value);
    }

    /// CPY: compares Y with the operand.
    pub fn cpy(&mut self, mode: &AddressingMode)
        requires
            mode.resolves(),
        ensures
            final(self)@ == old(self)@.cpy(*mode),
    {
        let value = self.fetch_operand(mode);
        self.status = compare(self.status, self.register_y, value);
    }
}

} // verus!
