//! An interpreter for the instruction set of the MOS 6502 microprocessor.
//!
//! The machine is a [`CPU`]: three 8-bit registers, a status byte, a program
//! counter, a stack pointer and a flat memory of 64 KiB. Every operation is
//! specified against a mathematical model of that machine, [`State`], and
//! proved to follow it.

pub mod addressing;
pub mod arithmetic;
pub mod branch;
pub mod compare;
pub mod decode;
pub mod flags;
pub mod interpreter;
pub mod jump;
pub mod laws;
pub mod load_store;
pub mod logic;
pub mod memory;
pub mod shift;
pub mod stack;
pub mod state;
pub mod status;
pub mod transfer;

pub use addressing::AddressingMode;
pub use flags::{
    is_flag_set, BREAK_FLAG, CARRY_FLAG, DECIMAL_FLAG, INTERRUPT_FLAG, INVALID_FLAG,
    NEGATIVE_FLAG, OVERFOW_FLAG, ZERO_FLAG,
};
pub use decode::{decode, Instruction, Mnemonic};
pub use interpreter::CpuError;
pub use memory::Memory;
pub use state::{State, CPU};
