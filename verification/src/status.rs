//! Instructions that set or clear one flag: SEC, CLC, SEI, CLI, SED, CLD,
//! CLV; and NOP, which does nothing.

use vstd::prelude::*;
use crate::flags::{
    put_flag, with_flag, CARRY_FLAG, DECIMAL_FLAG, INTERRUPT_FLAG, OVERFOW_FLAG,
};
use crate::state::{State, CPU};

verus! {

impl State {
    /// The state with `flag` set if `on`, cleared otherwise.
    pub open spec fn with_status(self, flag: u8, on: bool) -> State {
        State { p: with_flag(self.p, flag, on), ..self }
    }

    /// SEC: Carry is set.
    pub open spec fn sec(self) -> State {
        self.with_status(CARRY_FLAG, true)
    }

    /// CLC: Carry is cleared.
    pub open spec fn clc(self) -> State {
        self.with_status(CARRY_FLAG, false)
    }

    /// SEI: Interrupt disable is set.
    pub open spec fn sei(self) -> State {
        self.with_status(INTERRUPT_FLAG, true)
    }

    /// CLI: Interrupt disable is cleared.
    pub open spec fn cli(self) -> State {
        self.with_status(INTERRUPT_FLAG, false)
    }

    /// SED: Decimal is set.
    pub open spec fn sed(self) -> State {
        self.with_status(DECIMAL_FLAG, true)
    }

    /// CLD: Decimal is cleared.
    pub open spec fn cld(self) -> State {
        self.with_status(DECIMAL_FLAG, false)
    }

    /// CLV: Overflow is cleared.
    pub open spec fn clv(self) -> State {
        self.with_status(OVERFOW_FLAG, false)
    }
}

impl CPU {
    /// SEC: sets Carry.
    pub fn sec(&mut self)
        ensures
            final(self)@ == old(self)@.sec(),
    {
        self.status = put_flag(self.status, CARRY_FLAG, true);
    }

    /// CLC: clears Carry.
    pub fn clc(&mut self)
        ensures
            final(self)@ == old(self)@.clc(),
    {
        self.status = put_flag(self.status, CARRY_FLAG, false);
    }

    /// SEI: sets Interrupt disable.
    pub fn sei(&mut self)
        ensures
            final(self)@ == old(self)@.sei(),
    {
        self.status = put_flag(self.status, INTERRUPT_FLAG, true);
    }

    /// CLI: clears Interrupt disable.
    pub fn cli(&mut self)
        ensures
            final(self)@ == old(self)@.cli(),
    {
        self.status = put_flag(self.status, INTERRUPT_FLAG, false);
    }

    /// SED: sets Decimal.
    pub fn sed(&mut self)
        ensures
            final(self)@ == old(self)@.sed(),
    {
        self.status = put_flag(self.status, DECIMAL_FLAG, true);
    }

    /// CLD: clears Decimal.
    pub fn cld(&mut self)
        ensures
            final(self)@ == old(self)@.cld(),
    {
        self.status = put_flag(self.status, DECIMAL_FLAG, false);
    }

    /// CLV: clears Overflow.
    pub fn clv(&mut self)
        ensures
            final(self)@ == old(self)@.clv(),
    {
        self.status = put_flag(self.status, OVERFOW_FLAG, false);
    }
}

} // verus!
