//! The stack, and the instructions that push and pull one byte: PHA, PLA,
//! PHP, PLP.
//!
//! The stack lives in page one and grows downward. A push stores at the
//! stack pointer and then moves it down; a pull moves it up and then reads.
//! The stack pointer wraps within the page.

use vstd::prelude::*;
use crate::arithmetic::{decrement, increment};
use crate::flags::{BREAK_FLAG, INVALID_FLAG};
use crate::memory::{lemma_split_word, make_word};
use crate::state::{offset16, State, CPU};

verus! {

/// The first address of the stack page.
pub const STACK_PAGE: u16 = 0x0100;

impl State {
    /// The status byte as it is taken from the stack: bit 5 reads as 1.
    pub open spec fn pulled_status(self) -> u8 {
        self.pulled().top() | INVALID_FLAG
    }

    /// PHA: the accumulator is pushed.
    pub open spec fn pha(self) -> State {
        self.pushed(self.a)
    }

    /// PLA: the accumulator takes the byte pulled; Zero and Negative follow
    /// it.
    pub open spec fn pla(self) -> State {
        State { a: self.pulled().top(), ..self.pulled() }.flagged(self.pulled().top())
    }

    /// PHP: the status byte is pushed, with Break and bit 5 set in the copy
    /// on the stack.
    pub open spec fn php(self) -> State {
        self.pushed(self.p | BREAK_FLAG | INVALID_FLAG)
    }

    /// PLP: the status byte takes six flags from the byte pulled; Break
    /// keeps the value it had, and bit 5 is set.
    pub open spec fn plp(self) -> State {
        State {
            p: (self.pulled().top() & !(BREAK_FLAG | INVALID_FLAG)) | (self.p & BREAK_FLAG)
                | INVALID_FLAG,
            ..self.pulled()
        }
    }
}

impl CPU {
    /// Pushes one byte.
    pub fn push_byte(&mut self, data: u8)
        ensures
            final(self)@ == old(self)@.pushed(data),
    {
        self.mem_write(STACK_PAGE + self.stackpointer as u16, data);
        self.stackpointer = decrement(self.stackpointer);
    }

    /// Pulls one byte.
    pub fn pop_byte(&mut self) -> (data: u8)
        ensures
            final(self)@ == old(self)@.pulled(),
            data == old(self)@.pulled().top(),
    {
        self.stackpointer = increment(self.stackpointer);
        self.mem_read(STACK_PAGE + self.stackpointer as u16)
    }

    /// Pushes a word, high byte first.
    pub fn push(&mut self, data: u16)
        ensures
            final(self)@ == old(self)@.pushed_word(data),
    {
        let hi = (data >> 8) as u8;
        let lo = (data & 0xff) as u8;
        proof {
            lemma_split_word(data);
        }
        self.push_byte(hi);
        self.push_byte(lo);
    }

    /// Pushes the address of the byte after the one at the program counter.
    pub fn push_pc(&mut self)
        ensures
            final(self)@ == old(self)@.pushed_word(offset16(old(self)@.pc, 1)),
    {
        self.push(self.program_counter.wrapping_add(1));
    }

    /// Pulls a word, low byte first, and returns it.
    pub fn pop_pc(&mut self) -> (addr: u16)
        ensures
            final(self)@ == old(self)@.pulled_word(),
            addr == old(self)@.pulled_word_value(),
    {
        let lo = self.pop_byte();
        let hi = self.pop_byte();
        make_word(lo, hi)
    }

    /// Pulls a status byte: the byte on the stack with bit 5 set.
    pub fn pop_flag(&mut self) -> (flags: u8)
        ensures
            final(self)@ == old(self)@.pulled(),
            flags == old(self)@.pulled_status(),
    {
        self.pop_byte() | INVALID_FLAG
    }

    /// PHA: pushes the accumulator.
    pub fn pha(&mut self)
        ensures
            final(self)@ == old(self)@.pha(),
    {
        self.push_byte(self.register_a);
    }

    /// PLA: pulls the accumulator.
    pub fn pla(&mut self)
        ensures
            final(self)@ == old(self)@.pla(),
    {
        self.register_a = self.pop_byte();
        self.update_zero_and_negative_flags(self.register_a);
    }

    /// PHP: pushes the status byte.
    pub fn php(&mut self)
        ensures
            final(self)@ == old(self)@.php(),
    {
        self.push_byte(self.status | BREAK_FLAG | INVALID_FLAG);
    }

    /// PLP: pulls the status byte. Break is not taken from the stack.
    pub fn plp(&mut self)
        ensures
            final(self)@ == old(self)@.plp(),
    {
        let kept = self.status & BREAK_FLAG;
        let pulled = self.pop_byte();
        self.status = (pulled & !(BREAK_FLAG | INVALID_FLAG)) | kept | INVALID_FLAG;
    }
}

} // verus!
