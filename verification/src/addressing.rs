//! Addressing modes: how an instruction finds its operand.
//!
//! The resolver reads the operand bytes at the program counter, which points
//! at the first of them, and gives the address that the instruction works
//! on. It changes nothing.

use vstd::prelude::*;
use vstd::pervasive::unreached;
use crate::memory::{make_word, word};
use crate::state::{inc8, offset16, State, CPU};

verus! {

/// The ways in which an instruction names its operand.
#[derive(Debug, Clone, Copy, PartialEq, Eq, Structural)]
#[allow(non_camel_case_types)]
pub enum AddressingMode {
    /// The operand is the accumulator.
    Accumulator,
    /// The operand is the byte that follows the opcode.
    Immediate,
    /// The operand byte is an address in page zero.
    Zeropage,
    /// The operand byte plus X, within page zero.
    Zeropage_X,
    /// The operand byte plus Y, within page zero.
    Zeropage_Y,
    /// The two operand bytes are the address.
    Absolute,
    /// The two operand bytes plus X.
    Absolute_X,
    /// The two operand bytes plus Y.
    Absolute_Y,
    /// The two operand bytes point at the address.
    Indirect,
    /// The operand byte plus X, within page zero, points at the address.
    Indirect_X,
    /// The operand byte points, in page zero, at an address to which Y is
    /// added.
    Indirect_Y,
    /// The operand byte is a signed distance from the next instruction.
    Relative,
    /// The instruction has no operand.
    NoneAddressinng,
}

/// The byte `v` read as a signed number, from -128 to 127.
pub open spec fn signed(v: u8) -> int {
    if v < 0x80 {
        v as int
    } else {
        v - 256
    }
}

impl AddressingMode {
    /// Whether the mode gives an address in memory: every mode but
    /// `Accumulator` and `NoneAddressinng`.
    pub open spec fn resolves(self) -> bool {
        self != AddressingMode::Accumulator && self != AddressingMode::NoneAddressinng
    }

    /// Whether the mode names an operand, in memory or the accumulator:
    /// every mode but `NoneAddressinng`. These are the modes that the
    /// resolver takes.
    pub open spec fn locates(self) -> bool {
        self != AddressingMode::NoneAddressinng
    }

    /// The number of operand bytes that follow the opcode.
    pub open spec fn operand_len(self) -> int {
        match self {
            AddressingMode::Accumulator | AddressingMode::NoneAddressinng => 0,
            AddressingMode::Absolute
            | AddressingMode::Absolute_X
            | AddressingMode::Absolute_Y
            | AddressingMode::Indirect => 2,
            _ => 1,
        }
    }

    /// The number of operand bytes that follow the opcode.
    pub fn operand_bytes(&self) -> (count: u16)
        ensures
            count == self.operand_len(),
    {
        match self {
            AddressingMode::Accumulator | AddressingMode::NoneAddressinng => 0,
            AddressingMode::Absolute
            | AddressingMode::Absolute_X
            | AddressingMode::Absolute_Y
            | AddressingMode::Indirect => 2,
            _ => 1,
        }
    }
}

impl State {
    /// The word whose low byte is in page zero at `zp` and whose high byte
    /// is at the next address of page zero, which after `0xff` is `0x00`.
    pub open spec fn zero_page_word(self, zp: u8) -> u16 {
        word(self.mem[zp as int], self.mem[inc8(zp) as int])
    }

    /// The address that `mode` gives when the program counter points at the
    /// first operand byte. For `Immediate` it is the program counter itself;
    /// for `Relative` it is the branch target: the address after the operand
    /// byte, plus that byte as a signed number. Sums within page zero are
    /// taken modulo 256, all others modulo 65,536.
    ///
    /// `Accumulator` names no cell of memory and has no operand byte: for
    /// it the result is the program counter too, and the instructions that
    /// take the mode work on the accumulator and do not use the result.
    pub open spec fn operand_address(self, mode: AddressingMode) -> u16
        recommends
            mode.locates(),
    {
        let b = self.read(self.pc);
        let w = self.read_word(self.pc);
        match mode {
            AddressingMode::Immediate => self.pc,
            AddressingMode::Zeropage => b as u16,
            AddressingMode::Zeropage_X => ((b + self.x) % 256) as u16,
            AddressingMode::Zeropage_Y => ((b + self.y) % 256) as u16,
            AddressingMode::Absolute => w,
            AddressingMode::Absolute_X => offset16(w, self.x as int),
            AddressingMode::Absolute_Y => offset16(w, self.y as int),
            AddressingMode::Indirect => self.read_word(w),
            AddressingMode::Indirect_X => self.zero_page_word(((b + self.x) % 256) as u8),
            AddressingMode::Indirect_Y => offset16(self.zero_page_word(b), self.y as int),
            AddressingMode::Relative => offset16(self.pc, 1 + signed(b)),
            AddressingMode::Accumulator | AddressingMode::NoneAddressinng => self.pc,
        }
    }

    /// The byte that an instruction with `mode` reads.
    pub open spec fn operand(self, mode: AddressingMode) -> u8
        recommends
            mode.resolves(),
    {
        self.read(self.operand_address(mode))
    }
}

/// `base + index` within page zero: modulo 256.
fn zero_page_indexed(base: u8, index: u8) -> (zp: u8)
    ensures
        zp == (base + index) % 256,
{
    base.wrapping_add(index)
}

/// `base + index` modulo 65,536.
fn indexed(base: u16, index: u8) -> (addr: u16)
    ensures
        addr == offset16(base, index as int),
{
    base.wrapping_add(index as u16)
}

/// Where a branch goes whose operand byte `offset` is at `pc`: the address
/// after the operand, plus the offset as a signed number, modulo 65,536.
fn branch_target(pc: u16, offset: u8) -> (target: u16)
    ensures
        target == offset16(pc, 1 + signed(offset)),
{
    let next = pc.wrapping_add(1);
    if offset < 0x80 {
        next.wrapping_add(offset as u16)
    } else {
        next.wrapping_sub(0x100 - offset as u16)
    }
}

impl CPU {
    /// The word in page zero at `zp`; the high byte of a word at `0xff` is
    /// at `0x00`.
    fn zero_page_word(&self, zp: u8) -> (w: u16)
        ensures
            w == self@.zero_page_word(zp),
    {
        let lo = self.mem_read(zp as u16);
        let hi = self.mem_read(zp.wrapping_add(1) as u16);
        make_word(lo, hi)
    }

    /// The address that `mode` gives for the operand at the program counter.
    /// The machine is only read: no register, not the program counter, and
    /// no cell of memory changes. Every mode is taken but `NoneAddressinng`,
    /// which names no operand.
    pub fn get_operand_address(&self, mode: &AddressingMode) -> (addr: u16)
        requires
            mode.locates(),
        ensures
            addr == self@.operand_address(*mode),
    {
        match mode {
            AddressingMode::Immediate => self.program_counter,
            AddressingMode::Zeropage => self.mem_read(self.program_counter) as u16,
            AddressingMode::Absolute => self.mem_read_u16(self.program_counter),
            AddressingMode::Zeropage_X => {
                let pos = self.mem_read(self.program_counter);
                zero_page_indexed(pos, self.register_x) as u16
            },
            AddressingMode::Zeropage_Y => {
                let pos = self.mem_read(self.program_counter);
                zero_page_indexed(pos, self.register_y) as u16
            },
            AddressingMode::Absolute_X => {
                let pos = self.mem_read_u16(self.program_counter);
                indexed(pos, self.register_x)
            },
            AddressingMode::Absolute_Y => {
                let pos = self.mem_read_u16(self.program_counter);
                indexed(pos, self.register_y)
            },
            AddressingMode::Indirect => {
                let pointer = self.mem_read_u16(self.program_counter);
                self.mem_read_u16(pointer)
            },
            AddressingMode::Indirect_X => {
                let pos = self.mem_read(self.program_counter);
                self.zero_page_word(zero_page_indexed(pos, self.register_x))
            },
            AddressingMode::Indirect_Y => {
                let pos = self.mem_read(self.program_counter);
                indexed(self.zero_page_word(pos), self.register_y)
            },
            AddressingMode::Relative => {
                let offset = self.mem_read(self.program_counter);
                branch_target(self.program_counter, offset)
            },
            AddressingMode::Accumulator => self.program_counter,
            AddressingMode::NoneAddressinng => unreached(),
        }
    }

    /// The byte that an instruction with `mode` reads.
    pub fn fetch_operand(&self, mode: &AddressingMode) -> (value: u8)
        requires
            mode.resolves(),
        ensures
            value == self@.operand(*mode),
    {
        let addr = self.get_operand_address(mode);
        self.mem_read(addr)
    }
}

} // verus!
