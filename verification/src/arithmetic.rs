//! Arithmetic: ADC, SBC, and the increments and decrements.
//!
//! Decimal mode does not exist in this processor: the Decimal flag never
//! changes what ADC and SBC compute.

use vstd::prelude::*;
use crate::addressing::AddressingMode;
use crate::flags::{
    carry_in, is_flag_set, put_flag, with_flag, with_zero_negative, CARRY_FLAG, OVERFOW_FLAG,
};
use crate::state::{dec8, inc8, State, CPU};

verus! {

impl State {
    /// The accumulator plus `m` plus the carry. The accumulator takes the
    /// sum modulo 256; Carry tells whether the sum is over 255; Overflow
    /// tells whether the accumulator and `m` had the same sign and the result
    /// has the other; Zero and Negative follow the result.
    pub open spec fn add_with_carry(self, m: u8) -> State {
        let sum = self.a + m + carry_in(self.p);
        let result = (sum % 256) as u8;
        let overflow = (self.a ^ result) & (m ^ result) & 0x80 != 0;
        let p = with_flag(with_flag(self.p, CARRY_FLAG, sum > 255), OVERFOW_FLAG, overflow);
        State { a: result, p: with_zero_negative(p, result), ..self }
    }

    /// ADC: adds the operand and the carry to the accumulator.
    pub open spec fn adc(self, mode: AddressingMode) -> State {
        self.add_with_carry(self.operand(mode))
    }

    /// SBC: adds the one's complement of the operand and the carry to the
    /// accumulator. Carry then tells that no borrow was needed.
    pub open spec fn sbc(self, mode: AddressingMode) -> State {
        self.add_with_carry(!self.operand(mode))
    }

    /// INC: the byte at the operand's address goes up by one, modulo 256;
    /// Zero and Negative follow it.
    pub open spec fn inc(self, mode: AddressingMode) -> State {
        self.write(self.operand_address(mode), inc8(self.operand(mode))).flagged(
            inc8(self.operand(mode)),
        )
    }

    /// DEC: the byte at the operand's address goes down by one, modulo 256;
    /// Zero and Negative follow it.
    pub open spec fn dec(self, mode: AddressingMode) -> State {
        self.write(self.operand_address(mode), dec8(self.operand(mode))).flagged(
            dec8(self.operand(mode)),
        )
    }

    /// INX: X goes up by one, modulo 256; Zero and Negative follow it.
    pub open spec fn inx(self) -> State {
        State { x: inc8(self.x), ..self }.flagged(inc8(self.x))
    }

    /// DEX: X goes down by one, modulo 256; Zero and Negative follow it.
    pub open spec fn dex(self) -> State {
        State { x: dec8(self.x), ..self }.flagged(dec8(self.x))
    }

    /// INY: Y goes up by one, modulo 256; Zero and Negative follow it.
    pub open spec fn iny(self) -> State {
        State { y: inc8(self.y), ..self }.flagged(inc8(self.y))
    }

    /// DEY: Y goes down by one, modulo 256; Zero and Negative follow it.
    pub open spec fn dey(self) -> State {
        State { y: dec8(self.y), ..self }.flagged(dec8(self.y))
    }
}

/// `v + 1` modulo 256.
pub fn increment(v: u8) -> (r: u8)
    ensures
        r == inc8(v),
{
    v.wrapping_add(1)
}

/// `v - 1` modulo 256.
pub fn decrement(v: u8) -> (r: u8)
    ensures
        r == dec8(v),
{
    v.wrapping_sub(1)
}

impl CPU {
    /// Adds `m` and the carry to the accumulator and sets Carry, Overflow,
    /// Zero and Negative.
    pub fn add_with_carry(&mut self, m: u8)
        ensures
            final(self)@ == old(self)@.add_with_carry(m),
    {
        let a = self.register_a;
        let carry: u16 = if is_flag_set(CARRY_FLAG, self.status) {
            1
        } else {
            0
        };
        let sum: u16 = a as u16 + m as u16 + carry;
        let result: u8 = (sum % 256) as u8;
        let overflow = (a ^ result) & (m ^ result) & 0x80 != 0;
        self.status = put_flag(self.status, CARRY_FLAG, sum > 255);
        self.status = put_flag(self.status, OVERFOW_FLAG, overflow);
        self.register_a = result;
        self.update_zero_and_negative_flags(result);
    }

    /// ADC: add with carry.
    pub fn adc(&mut self, mode: &AddressingMode)
        requires
            mode.resolves(),
        ensures
            final(self)@ == old(self)@.adc(*mode),
    {
        let value = self.fetch_operand(mode);
        self.add_with_carry(value);
    }

    /// SBC: subtract with borrow.
    pub fn sbc(&mut self, mode: &AddressingMode)
        requires
            mode.resolves(),
        ensures
            final(self)@ == old(self)@.sbc(*mode),
    {
        let value = self.fetch_operand(mode);
        self.add_with_carry(!value);
    }

    /// INC: increments a byte of memory.
    pub fn inc(&mut self, mode: &AddressingMode)
        requires
            mode.resolves(),
        ensures
            final(self)@ == old(self)@.inc(*mode),
    {
        let addr = self.get_operand_address(mode);
        let value = increment(self.mem_read(addr));
        self.mem_write(addr, value);
        self.update_zero_and_negative_flags(value);
    }

    /// DEC: decrements a byte of memory.
    pub fn dec(&mut self, mode: &AddressingMode)
        requires
            mode.resolves(),
        ensures
            final(self)@ == old(self)@.dec(*mode),
    {
        let addr = self.get_operand_address(mode);
        let value = decrement(self.mem_read(addr));
        self.mem_write(addr, value);
        self.update_zero_and_negative_flags(value);
    }

    /// INX: increments X.
    pub fn inx(&mut self)
        ensures
            final(self)@ == old(self)@.inx(),
    {
        self.register_x = increment(self.register_x);
        self.update_zero_and_negative_flags(self.register_x);
    }

    /// DEX: decrements X.
    pub fn dex(&mut self)
        ensures
            final(self)@ == old(self)@.dex(),
    {
        self.register_x = decrement(self.register_x);
        self.update_zero_and_negative_flags(self.register_x);
    }

    /// INY: increments Y.
    pub fn iny(&mut self)
        ensures
            final(self)@ == old(self)@.iny(),
    {
        self.register_y = increment(self.register_y);
        self.update_zero_and_negative_flags(self.register_y);
    }

    /// DEY: decrements Y.
    pub fn dey(&mut self)
        ensures
            final(self)@ == old(self)@.dey(),
    {
        self.register_y = decrement(self.register_y);
        self.update_zero_and_negative_flags(self.register_y);
    }
}

} // verus!
