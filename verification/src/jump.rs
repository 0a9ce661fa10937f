//! Jumps, subroutines and interrupts: JMP, JSR, RTS, RTI, BRK.

use vstd::prelude::*;
use vstd::pervasive::unreached;
use crate::addressing::AddressingMode;
use crate::flags::{put_flag, BREAK_FLAG, INTERRUPT_FLAG, INVALID_FLAG};
use crate::memory::{make_word, word};
use crate::state::{offset16, State, BREAK_VECTOR, CPU};

verus! {

/// The address after `addr` within the page of `addr`: after the last byte
/// of a page comes the first byte of the same page.
pub open spec fn next_in_page(addr: u16) -> u16 {
    if addr % 256 == 255 {
        (addr - 255) as u16
    } else {
        (addr + 1) as u16
    }
}

impl AddressingMode {
    /// Whether JMP takes the mode: `Absolute` and `Indirect`.
    pub open spec fn jumps(self) -> bool {
        self == AddressingMode::Absolute || self == AddressingMode::Indirect
    }
}

impl State {
    /// The word that an indirect jump reads through `pointer`: the low byte
    /// at `pointer`, the high byte at the next address of the same page.
    pub open spec fn read_word_in_page(self, pointer: u16) -> u16 {
        word(self.read(pointer), self.read(next_in_page(pointer)))
    }

    /// Where JMP goes: to the operand word in `Absolute` mode; in
    /// `Indirect` mode to the word that the operand word points at, read
    /// within one page.
    pub open spec fn jump_target(self, mode: AddressingMode) -> u16 {
        if mode == AddressingMode::Indirect {
            self.read_word_in_page(self.read_word(self.pc))
        } else {
            self.read_word(self.pc)
        }
    }

    /// JMP: the program counter takes the jump target.
    pub open spec fn jmp(self, mode: AddressingMode) -> State {
        State { pc: self.jump_target(mode), ..self }
    }

    /// JSR: the address of the last byte of the instruction, which is the
    /// program counter plus one, is pushed high byte first; the program
    /// counter takes the operand word.
    pub open spec fn jsr(self) -> State {
        State { pc: self.read_word(self.pc), ..self.pushed_word(offset16(self.pc, 1)) }
    }

    /// RTS: a word is pulled, low byte first; the program counter takes the
    /// address after it.
    pub open spec fn rts(self) -> State {
        State { pc: offset16(self.pulled_word_value(), 1), ..self.pulled_word() }
    }

    /// RTI: the status byte is pulled, with Break cleared and bit 5 set;
    /// then the program counter is pulled, low byte first, and taken as it
    /// is.
    pub open spec fn rti(self) -> State {
        State {
            p: self.pulled_status() & !BREAK_FLAG,
            pc: self.pulled().pulled_word_value(),
            ..self.pulled().pulled_word()
        }
    }

    /// BRK: the program counter plus one is pushed, high byte first, then
    /// the status byte with Break and bit 5 set; Interrupt disable is set
    /// and the program counter takes the word at the break vector.
    pub open spec fn brk(self) -> State {
        let s = self.pushed_word(offset16(self.pc, 1)).pushed(self.p | BREAK_FLAG | INVALID_FLAG);
        State { p: self.p | INTERRUPT_FLAG, pc: s.read_word(BREAK_VECTOR), ..s }
    }
}

/// The address after `addr` within its page.
fn following_in_page(addr: u16) -> (next: u16)
    ensures
        next == next_in_page(addr),
{
    if addr % 256 == 255 {
        addr - 255
    } else {
        addr + 1
    }
}

impl CPU {
    /// JMP: jumps to the operand's address.
    pub fn jmp(&mut self, mode: &AddressingMode)
        requires
            mode.jumps(),
        ensures
            final(self)@ == old(self)@.jmp(*mode),
    {
        let operand = self.mem_read_u16(self.program_counter);
        let target = match mode {
            AddressingMode::Absolute => operand,
            AddressingMode::Indirect => {
                let lo = self.mem_read(operand);
                let hi = self.mem_read(following_in_page(operand));
                make_word(lo, hi)
            },
            _ => unreached(),
        };
        self.program_counter = target;
    }

    /// JSR: jumps to a subroutine.
    pub fn jsr(&mut self, mode: &AddressingMode)
        requires
            *mode == AddressingMode::Absolute,
        ensures
            final(self)@ == old(self)@.jsr(),
    {
        let target = self.mem_read_u16(self.program_counter);
        self.push_pc();
        self.program_counter = target;
    }

    /// RTS: returns from a subroutine.
    pub fn rts(&mut self)
        ensures
            final(self)@ == old(self)@.rts(),
    {
        self.program_counter = self.pop_pc().wrapping_add(1);
    }

    /// RTI: returns from an interrupt.
    pub fn rti(&mut self)
        ensures
            final(self)@ == old(self)@.rti(),
    {
        self.status = self.pop_flag() & !BREAK_FLAG;
        self.program_counter = self.pop_pc();
    }

    /// BRK: forces an interrupt.
    pub fn brk(&mut self)
        ensures
            final(self)@ == old(self)@.brk(),
    {
        let status = self.status;
        self.push_pc();
        self.push_byte(status | BREAK_FLAG | INVALID_FLAG);
        self.status = put_flag(status, INTERRUPT_FLAG, true);
        self.program_counter = self.mem_read_u16(BREAK_VECTOR);
    }
}

} // verus!
