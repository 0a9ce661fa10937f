//! The machine and its mathematical model.
//!
//! [`State`] is the model: the registers as numbers and the memory as a
//! sequence of bytes. [`CPU`] is the machine that runs; its view is a
//! `State`, and every operation of the machine is specified as a function on
//! states.

use vstd::prelude::*;
use crate::flags::{put_flag, with_zero_negative, NEGATIVE_FLAG, ZERO_FLAG};
use crate::memory::{high_byte, low_byte, with_word, word, word_at, Memory, MEMORY_SIZE};

verus! {

/// Where a program image is loaded.
pub const PROGRAM_START: u16 = 0x8000;

/// Where the program counter is read from on reset.
pub const RESET_VECTOR: u16 = 0xfffc;

/// Where the program counter is read from on a break.
pub const BREAK_VECTOR: u16 = 0xfffe;

/// The value of the stack pointer after reset: the top of the stack page.
pub const STACK_RESET: u8 = 0xff;

/// `v + 1` modulo 256.
pub open spec fn inc8(v: u8) -> u8 {
    ((v + 1) % 256) as u8
}

/// `v - 1` modulo 256.
pub open spec fn dec8(v: u8) -> u8 {
    ((v + 255) % 256) as u8
}

/// `addr + delta` modulo 65,536.
pub open spec fn offset16(addr: u16, delta: int) -> u16 {
    ((addr + delta) % 0x1_0000) as u16
}

/// The address in the stack page that the stack pointer `sp` stands for.
pub open spec fn stack_address(sp: u8) -> u16 {
    (0x0100 + sp) as u16
}

/// The architectural state of the processor together with its memory.
#[verifier::ext_equal]
pub struct State {
    /// The accumulator.
    pub a: u8,
    /// The index register X.
    pub x: u8,
    /// The index register Y.
    pub y: u8,
    /// The status byte.
    pub p: u8,
    /// The program counter.
    pub pc: u16,
    /// The stack pointer.
    pub sp: u8,
    /// The memory, one byte for each address.
    pub mem: Seq<u8>,
}

impl State {
    /// Every address has a cell.
    pub open spec fn wf(self) -> bool {
        self.mem.len() == MEMORY_SIZE
    }

    /// The byte at `addr`.
    pub open spec fn read(self, addr: u16) -> u8 {
        self.mem[addr as int]
    }

    /// The little-endian word at `addr`.
    pub open spec fn read_word(self, addr: u16) -> u16 {
        word_at(self.mem, addr)
    }

    /// The state with `value` stored at `addr`.
    pub open spec fn write(self, addr: u16, value: u8) -> State {
        State { mem: self.mem.update(addr as int, value), ..self }
    }

    /// The state with the little-endian word `value` stored at `addr`.
    pub open spec fn write_word(self, addr: u16, value: u16) -> State {
        State { mem: with_word(self.mem, addr, value), ..self }
    }

    /// The state with Zero and Negative set from `value`.
    pub open spec fn flagged(self, value: u8) -> State {
        State { p: with_zero_negative(self.p, value), ..self }
    }

    /// The state with the program counter moved forward by `count`,
    /// modulo 65,536.
    pub open spec fn advanced(self, count: int) -> State {
        State { pc: offset16(self.pc, count), ..self }
    }

    /// The state after pushing `value`: it is stored where the stack pointer
    /// points, and the stack pointer then moves down by one, modulo 256.
    pub open spec fn pushed(self, value: u8) -> State {
        State {
            mem: self.mem.update(stack_address(self.sp) as int, value),
            sp: dec8(self.sp),
            ..self
        }
    }

    /// The state after pushing the word `value`, high byte first.
    pub open spec fn pushed_word(self, value: u16) -> State {
        self.pushed(high_byte(value)).pushed(low_byte(value))
    }

    /// The state after the stack pointer has moved up by one, modulo 256.
    /// The byte pulled is then `top()`.
    pub open spec fn pulled(self) -> State {
        State { sp: inc8(self.sp), ..self }
    }

    /// The byte where the stack pointer points.
    pub open spec fn top(self) -> u8 {
        self.mem[stack_address(self.sp) as int]
    }

    /// The state after pulling a word, low byte first. The word pulled is
    /// `pulled_word_value()`.
    pub open spec fn pulled_word(self) -> State {
        self.pulled().pulled()
    }

    /// The word that `pulled_word` pulls.
    pub open spec fn pulled_word_value(self) -> u16 {
        word(self.pulled().top(), self.pulled().pulled().top())
    }

    /// The state that a machine is built in: all registers and all memory
    /// are 0, but for the stack pointer, which is at the top of its page.
    pub open spec fn initial() -> State {
        State {
            a: 0,
            x: 0,
            y: 0,
            p: 0,
            pc: 0,
            sp: STACK_RESET,
            mem: Seq::new(MEMORY_SIZE as nat, |i: int| 0u8),
        }
    }

    /// The state after a reset: A, X, Y and the status byte are 0, the stack
    /// pointer is at the top of its page, and the program counter holds the
    /// word at the reset vector. Memory is unchanged.
    pub open spec fn reset(self) -> State {
        State {
            a: 0,
            x: 0,
            y: 0,
            p: 0,
            pc: self.read_word(RESET_VECTOR),
            sp: STACK_RESET,
            mem: self.mem,
        }
    }

    /// The state after loading `program`: byte `i` of the program is at
    /// `0x8000 + i`, then the reset vector holds `0x8000`. Nothing else
    /// changes.
    pub open spec fn loaded(self, program: Seq<u8>) -> State {
        State {
            mem: with_word(
                Seq::new(
                    self.mem.len(),
                    |i: int|
                        if PROGRAM_START <= i < PROGRAM_START + program.len() {
                            program[i - PROGRAM_START]
                        } else {
                            self.mem[i]
                        },
                ),
                RESET_VECTOR,
                PROGRAM_START,
            ),
            ..self
        }
    }
}

/// The processor with its memory.
pub struct CPU {
    /// The accumulator.
    pub register_a: u8,
    /// The index register X.
    pub register_x: u8,
    /// The index register Y.
    pub register_y: u8,
    /// The status byte.
    pub status: u8,
    /// The program counter.
    pub program_counter: u16,
    /// The stack pointer; it stands for the address `0x0100 + stackpointer`.
    pub stackpointer: u8,
    /// The memory.
    pub memory: Memory,
}

impl View for CPU {
    type V = State;

    open spec fn view(&self) -> State {
        State {
            a: self.register_a,
            x: self.register_x,
            y: self.register_y,
            p: self.status,
            pc: self.program_counter,
            sp: self.stackpointer,
            mem: self.memory@,
        }
    }
}

impl CPU {
    /// The state of a machine is always well formed.
    pub proof fn lemma_wf(&self)
        ensures
            self@.wf(),
    {
        self.memory.lemma_size();
    }

    /// A machine in its initial state.
    pub fn new() -> (cpu: Self)
        ensures
            cpu@ == State::initial(),
    {
        CPU {
            register_a: 0,
            register_x: 0,
            register_y: 0,
            status: 0,
            program_counter: 0,
            stackpointer: STACK_RESET,
            memory: Memory::new(),
        }
    }

    /// The byte at `addr`.
    pub fn mem_read(&self, addr: u16) -> (b: u8)
        ensures
            b == self@.read(addr),
    {
        self.memory.read8(addr)
    }

    /// Stores `data` at `addr`.
    pub fn mem_write(&mut self, addr: u16, data: u8)
        ensures
            final(self)@ == old(self)@.write(addr, data),
    {
        self.memory.write8(addr, data);
    }

    /// The little-endian word at `pos`.
    pub fn mem_read_u16(&self, pos: u16) -> (w: u16)
        ensures
            w == self@.read_word(pos),
    {
        self.memory.read16(pos)
    }

    /// Stores the little-endian word `data` at `pos`.
    pub fn mem_write_u16(&mut self, pos: u16, data: u16)
        ensures
            final(self)@ == old(self)@.write_word(pos, data),
    {
        self.memory.write16(pos, data);
    }

    /// Sets Zero and Negative from `result` and leaves the other flags.
    pub fn update_zero_and_negative_flags(&mut self, result: u8)
        ensures
            final(self)@ == old(self)@.flagged(result),
    {
        self.status = put_flag(self.status, ZERO_FLAG, result == 0);
        self.status = put_flag(self.status, NEGATIVE_FLAG, result >= 0x80);
    }

    /// Moves the program counter forward by `count`, modulo 65,536.
    pub fn advance(&mut self, count: u16)
        ensures
            final(self)@ == old(self)@.advanced(count as int),
    {
        self.program_counter = self.program_counter.wrapping_add(count);
    }

    /// Resets the registers and reads the program counter from the reset
    /// vector.
    pub fn reset(&mut self)
        ensures
            final(self)@ == old(self)@.reset(),
    {
        self.register_a = 0;
        self.register_x = 0;
        self.register_y = 0;
        self.stackpointer = STACK_RESET;
        self.status = 0;
        self.program_counter = self.mem_read_u16(RESET_VECTOR);
    }

    /// Copies `program` into memory from `0x8000` on and points the reset
    /// vector at it. The program must fit below the end of the address
    /// space.
    pub fn load(&mut self, program: Vec<u8>)
        requires
            program@.len() <= MEMORY_SIZE - PROGRAM_START,
        ensures
            final(self)@ == old(self)@.loaded(program@),
    {
        let n = program.len();
        let mut i: usize = 0;
        proof {
            self.memory.lemma_size();
        }
        while i < n
            invariant
                n == program@.len(),
                n <= MEMORY_SIZE - PROGRAM_START,
                i <= n,
                self.memory@.len() == MEMORY_SIZE,
                self.register_a == old(self).register_a,
                self.register_x == old(self).register_x,
                self.register_y == old(self).register_y,
                self.status == old(self).status,
                self.program_counter == old(self).program_counter,
                self.stackpointer == old(self).stackpointer,
                self.memory@ == Seq::new(
                    MEMORY_SIZE as nat,
                    |j: int|
                        if PROGRAM_START <= j < PROGRAM_START + i {
                            program@[j - PROGRAM_START]
                        } else {
                            old(self).memory@[j]
                        },
                ),
            decreases n - i,
        {
            let addr: u16 = (PROGRAM_START as usize + i) as u16;
            self.mem_write(addr, program[i]);
            i += 1;
        }
        self.mem_write_u16(RESET_VECTOR, PROGRAM_START);
    }
}

} // verus!
