//! Shifts and rotates: ASL, LSR, ROL, ROR.
//!
//! Each works on the accumulator in `Accumulator` mode and on a byte of
//! memory in every other mode: it reads the byte, computes, and writes the
//! result back to where the byte came from.

use vstd::prelude::*;
use crate::addressing::AddressingMode;
use crate::flags::{is_flag_set, put_flag, with_flag, with_zero_negative, CARRY_FLAG};
use crate::state::{State, CPU};

verus! {

/// `v` shifted left by one bit: `2 * v` modulo 256.
pub open spec fn asl_value(v: u8) -> u8 {
    ((2 * v) % 256) as u8
}

/// `v` shifted right by one bit: `v / 2`.
pub open spec fn lsr_value(v: u8) -> u8 {
    (v / 2) as u8
}

/// `v` rotated left through the carry: the bits move up and `carry` comes
/// in as bit 0.
pub open spec fn rol_value(v: u8, carry: bool) -> u8 {
    ((2 * v) % 256 + if carry { 1int } else { 0int }) as u8
}

/// `v` rotated right through the carry: the bits move down and `carry`
/// comes in as bit 7.
pub open spec fn ror_value(v: u8, carry: bool) -> u8 {
    (v / 2 + if carry { 128int } else { 0int }) as u8
}

impl State {
    /// The byte that a shift or rotate with `mode` works on.
    pub open spec fn target(self, mode: AddressingMode) -> u8 {
        if mode == AddressingMode::Accumulator {
            self.a
        } else {
            self.operand(mode)
        }
    }

    /// The state with `value` written back to where `target` read.
    pub open spec fn with_target(self, mode: AddressingMode, value: u8) -> State {
        if mode == AddressingMode::Accumulator {
            State { a: value, ..self }
        } else {
            self.write(self.operand_address(mode), value)
        }
    }

    /// What the four instructions share: `result` is written back, Carry
    /// takes `carry_out`, and Zero and Negative follow the result.
    pub open spec fn shifted(self, mode: AddressingMode, result: u8, carry_out: bool) -> State {
        let s = self.with_target(mode, result);
        State { p: with_zero_negative(with_flag(self.p, CARRY_FLAG, carry_out), result), ..s }
    }

    /// ASL: Carry takes bit 7 of the target, which is shifted left.
    pub open spec fn asl(self, mode: AddressingMode) -> State {
        self.shifted(mode, asl_value(self.target(mode)), self.target(mode) >= 0x80)
    }

    /// LSR: Carry takes bit 0 of the target, which is shifted right.
    pub open spec fn lsr(self, mode: AddressingMode) -> State {
        self.shifted(mode, lsr_value(self.target(mode)), self.target(mode) % 2 == 1)
    }

    /// ROL: Carry takes bit 7 of the target, which is rotated left with the
    /// old Carry coming in.
    pub open spec fn rol(self, mode: AddressingMode) -> State {
        self.shifted(
            mode,
            rol_value(self.target(mode), self.p & CARRY_FLAG != 0),
            self.target(mode) >= 0x80,
        )
    }

    /// ROR: Carry takes bit 0 of the target, which is rotated right with the
    /// old Carry coming in.
    pub open spec fn ror(self, mode: AddressingMode) -> State {
        self.shifted(
            mode,
            ror_value(self.target(mode), self.p & CARRY_FLAG != 0),
            self.target(mode) % 2 == 1,
        )
    }
}

impl CPU {
    /// Finishes a shift or rotate: writes `result` back to where `mode`
    /// points and sets Carry, Zero and Negative.
    fn finish_shift(&mut self, mode: &AddressingMode, result: u8, carry_out: bool)
        requires
            mode.locates(),
        ensures
            final(self)@ == old(self)@.shifted(*mode, result, carry_out),
    {
        match mode {
            AddressingMode::Accumulator => {
                self.register_a = result;
            },
            _ => {
                let addr = self.get_operand_address(mode);
                self.mem_write(addr, result);
            },
        }
        self.status = put_flag(self.status, CARRY_FLAG, carry_out);
        self.update_zero_and_negative_flags(result);
    }

    /// The byte that a shift or rotate with `mode` works on.
    fn shift_target(&self, mode: &AddressingMode) -> (value: u8)
        requires
            mode.locates(),
        ensures
            value == self@.target(*mode),
    {
        match mode {
            AddressingMode::Accumulator => self.register_a,
            _ => self.fetch_operand(mode),
        }
    }

    /// ASL: arithmetic shift left.
    pub fn asl(&mut self, mode: &AddressingMode)
        requires
            mode.locates(),
        ensures
            final(self)@ == old(self)@.asl(*mode),
    {
        let value = self.shift_target(mode);
        self.finish_shift(mode, value.wrapping_mul(2), value >= 0x80);
    }

    /// LSR: logical shift right.
    pub fn lsr(&mut self, mode: &AddressingMode)
        requires
            mode.locates(),
        ensures
            final(self)@ == old(self)@.lsr(*mode),
    {
        let value = self.shift_target(mode);
        self.finish_shift(mode, value / 2, value % 2 == 1);
    }

    /// ROL: rotate left through the carry.
    pub fn rol(&mut self, mode: &AddressingMode)
        requires
            mode.locates(),
        ensures
            final(self)@ == old(self)@.rol(*mode),
    {
        let value = self.shift_target(mode);
        let carry: u8 = if is_flag_set(CARRY_FLAG, self.status) {
            1
        } else {
            0
        };
        self.finish_shift(mode, value.wrapping_mul(2) + carry, value >= 0x80);
    }

    /// ROR: rotate right through the carry.
    pub fn ror(&mut self, mode: &AddressingMode)
        requires
            mode.locates(),
        ensures
            final(self)@ == old(self)@.ror(*mode),
    {
        let value = self.shift_target(mode);
        let carry: u8 = if is_flag_set(CARRY_FLAG, self.status) {
            0x80
        } else {
            0
        };
        self.finish_shift(mode, value / 2 + carry, value % 2 == 1);
    }
}

} // verus!
