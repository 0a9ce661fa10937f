//! Conditional branches: BCC, BCS, BNE, BEQ, BPL, BMI, BVC, BVS.
//!
//! A branch that is taken sets the program counter to its target; one that
//! is not moves it past the operand byte. No flag changes.

use vstd::prelude::*;
use crate::addressing::AddressingMode;
use crate::flags::{flag_set, is_flag_set, CARRY_FLAG, NEGATIVE_FLAG, OVERFOW_FLAG, ZERO_FLAG};
use crate::state::{offset16, State, CPU};

verus! {

impl State {
    /// The state after a branch: at the target if `taken`, past the operand
    /// byte if not.
    pub open spec fn branch(self, taken: bool) -> State {
        State {
            pc: if taken {
                self.operand_address(AddressingMode::Relative)
            } else {
                offset16(self.pc, 1)
            },
            ..self
        }
    }

    /// BCC: branches if Carry is clear.
    pub open spec fn bcc(self) -> State {
        self.branch(!flag_set(CARRY_FLAG, self.p))
    }

    /// BCS: branches if Carry is set.
    pub open spec fn bcs(self) -> State {
        self.branch(flag_set(CARRY_FLAG, self.p))
    }

    /// BNE: branches if Zero is clear.
    pub open spec fn bne(self) -> State {
        self.branch(!flag_set(ZERO_FLAG, self.p))
    }

    /// BEQ: branches if Zero is set.
    pub open spec fn beq(self) -> State {
        self.branch(flag_set(ZERO_FLAG, self.p))
    }

    /// BPL: branches if Negative is clear.
    pub open spec fn bpl(self) -> State {
        self.branch(!flag_set(NEGATIVE_FLAG, self.p))
    }

    /// BMI: branches if Negative is set.
    pub open spec fn bmi(self) -> State {
        self.branch(flag_set(NEGATIVE_FLAG, self.p))
    }

    /// BVC: branches if Overflow is clear.
    pub open spec fn bvc(self) -> State {
        self.branch(!flag_set(OVERFOW_FLAG, self.p))
    }

    /// BVS: branches if Overflow is set.
    pub open spec fn bvs(self) -> State {
        self.branch(flag_set(OVERFOW_FLAG, self.p))
    }
}

impl CPU {
    /// Moves the program counter to the branch target if `taken`, past the
    /// operand byte if not.
    pub fn branch(&mut self, mode: &AddressingMode, taken: bool)
        requires
            *mode == AddressingMode::Relative,
        ensures
            final(self)@ == old(self)@.branch(taken),
    {
        if taken {
            self.program_counter = self.get_operand_address(mode);
        } else {
            self.advance(1);
        }
    }

    /// BCC: branch on carry clear.
    pub fn bcc(&mut self, mode: &AddressingMode)
        requires
            *mode == AddressingMode::Relative,
        ensures
            final(self)@ == old(self)@.bcc(),
    {
        self.branch(mode, !is_flag_set(CARRY_FLAG, self.status));
    }

    /// BCS: branch on carry set.
    pub fn bcs(&mut self, mode: &AddressingMode)
        requires
            *mode == AddressingMode::Relative,
        ensures
            final(self)@ == old(self)@.bcs(),
    {
        self.branch(mode, is_flag_set(CARRY_FLAG, self.status));
    }

    /// BNE: branch on result not zero.
    pub fn bne(&mut self, mode: &AddressingMode)
        requires
            *mode == AddressingMode::Relative,
        ensures
            final(self)@ == old(self)@.bne(),
    {
        self.branch(mode, !is_flag_set(ZERO_FLAG, self.status));
    }

    /// BEQ: branch on result zero.
    pub fn beq(&mut self, mode: &AddressingMode)
        requires
            *mode == AddressingMode::Relative,
        ensures
            final(self)@ == old(self)@.beq(),
    {
        self.branch(mode, is_flag_set(ZERO_FLAG, self.status));
    }

    /// BPL: branch on result plus.
    pub fn bpl(&mut self, mode: &AddressingMode)
        requires
            *mode == AddressingMode::Relative,
        ensures
            final(self)@ == old(self)@.bpl(),
    {
        self.branch(mode, !is_flag_set(NEGATIVE_FLAG, self.status));
    }

    /// BMI: branch on result minus.
    pub fn bmi(&mut self, mode: &AddressingMode)
        requires
            *mode == AddressingMode::Relative,
        ensures
            final(self)@ == old(self)@.bmi(),
    {
        self.branch(mode, is_flag_set(NEGATIVE_FLAG, self.status));
    }

    /// BVC: branch on overflow clear.
    pub fn bvc(&mut self, mode: &AddressingMode)
        requires
            *mode == AddressingMode::Relative,
        ensures
            final(self)@ == old(self)@.bvc(),
    {
        self.branch(mode, !is_flag_set(OVERFOW_FLAG, self.status));
    }

    /// BVS: branch on overflow set.
    pub fn bvs(&mut self, mode: &AddressingMode)
        requires
            *mode == AddressingMode::Relative,
        ensures
            final(self)@ == old(self)@.bvs(),
    {
        self.branch(mode, is_flag_set(OVERFOW_FLAG, self.status));
    }
}

} // verus!
