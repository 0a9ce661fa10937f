//! The opcode map: which instruction each opcode byte stands for.
//!
//! Of the 256 opcode bytes 151 are instructions. Each stands for one
//! mnemonic with one addressing mode; the others are illegal.

use vstd::prelude::*;
use crate::addressing::AddressingMode;

verus! {

/// The 56 instructions of the processor.
#[derive(Debug, Clone, Copy, PartialEq, Eq, Structural)]
pub enum Mnemonic {
    /// Add with carry.
    Adc,
    /// Bitwise and with the accumulator.
    And,
    /// Arithmetic shift left.
    Asl,
    /// Branch on carry clear.
    Bcc,
    /// Branch on carry set.
    Bcs,
    /// Branch on result zero.
    Beq,
    /// Test bits of memory against the accumulator.
    Bit,
    /// Branch on result minus.
    Bmi,
    /// Branch on result not zero.
    Bne,
    /// Branch on result plus.
    Bpl,
    /// Force an interrupt.
    Brk,
    /// Branch on overflow clear.
    Bvc,
    /// Branch on overflow set.
    Bvs,
    /// Clear Carry.
    Clc,
    /// Clear Decimal.
    Cld,
    /// Clear Interrupt disable.
    Cli,
    /// Clear Overflow.
    Clv,
    /// Compare with the accumulator.
    Cmp,
    /// Compare with X.
    Cpx,
    /// Compare with Y.
    Cpy,
    /// Decrement memory.
    Dec,
    /// Decrement X.
    Dex,
    /// Decrement Y.
    Dey,
    /// Bitwise exclusive or with the accumulator.
    Eor,
    /// Increment memory.
    Inc,
    /// Increment X.
    Inx,
    /// Increment Y.
    Iny,
    /// Jump.
    Jmp,
    /// Jump to a subroutine.
    Jsr,
    /// Load the accumulator.
    Lda,
    /// Load X.
    Ldx,
    /// Load Y.
    Ldy,
    /// Logical shift right.
    Lsr,
    /// Do nothing.
    Nop,
    /// Bitwise or with the accumulator.
    Ora,
    /// Push the accumulator.
    Pha,
    /// Push the status byte.
    Php,
    /// Pull the accumulator.
    Pla,
    /// Pull the status byte.
    Plp,
    /// Rotate left through the carry.
    Rol,
    /// Rotate right through the carry.
    Ror,
    /// Return from an interrupt.
    Rti,
    /// Return from a subroutine.
    Rts,
    /// Subtract with borrow.
    Sbc,
    /// Set Carry.
    Sec,
    /// Set Decimal.
    Sed,
    /// Set Interrupt disable.
    Sei,
    /// Store the accumulator.
    Sta,
    /// Store X.
    Stx,
    /// Store Y.
    Sty,
    /// Copy the accumulator to X.
    Tax,
    /// Copy the accumulator to Y.
    Tay,
    /// Copy the stack pointer to X.
    Tsx,
    /// Copy X to the accumulator.
    Txa,
    /// Copy X to the stack pointer.
    Txs,
    /// Copy Y to the accumulator.
    Tya,
}

/// What an opcode byte stands for.
#[derive(Debug, Clone, Copy, PartialEq, Eq, Structural)]
pub struct Instruction {
    /// What the instruction does.
    pub mnemonic: Mnemonic,
    /// How it finds its operand.
    pub mode: AddressingMode,
}

/// The instruction that `opcode` stands for, or `None` for an illegal
/// opcode.
pub open spec fn decoded(opcode: u8) -> Option<Instruction> {
    match opcode {
        0x00 => Some(Instruction { mnemonic: Mnemonic::Brk, mode: AddressingMode::NoneAddressinng }),
        0x01 => Some(Instruction { mnemonic: Mnemonic::Ora, mode: AddressingMode::Indirect_X }),
        0x05 => Some(Instruction { mnemonic: Mnemonic::Ora, mode: AddressingMode::Zeropage }),
        0x06 => Some(Instruction { mnemonic: Mnemonic::Asl, mode: AddressingMode::Zeropage }),
        0x08 => Some(Instruction { mnemonic: Mnemonic::Php, mode: AddressingMode::NoneAddressinng }),
        0x09 => Some(Instruction { mnemonic: Mnemonic::Ora, mode: AddressingMode::Immediate }),
        0x0A => Some(Instruction { mnemonic: Mnemonic::Asl, mode: AddressingMode::Accumulator }),
        0x0D => Some(Instruction { mnemonic: Mnemonic::Ora, mode: AddressingMode::Absolute }),
        0x0E => Some(Instruction { mnemonic: Mnemonic::Asl, mode: AddressingMode::Absolute }),
        0x10 => Some(Instruction { mnemonic: Mnemonic::Bpl, mode: AddressingMode::Relative }),
        0x11 => Some(Instruction { mnemonic: Mnemonic::Ora, mode: AddressingMode::Indirect_Y }),
        0x15 => Some(Instruction { mnemonic: Mnemonic::Ora, mode: AddressingMode::Zeropage_X }),
        0x16 => Some(Instruction { mnemonic: Mnemonic::Asl, mode: AddressingMode::Zeropage_X }),
        0x18 => Some(Instruction { mnemonic: Mnemonic::Clc, mode: AddressingMode::NoneAddressinng }),
        0x19 => Some(Instruction { mnemonic: Mnemonic::Ora, mode: AddressingMode::Absolute_Y }),
        0x1D => Some(Instruction { mnemonic: Mnemonic::Ora, mode: AddressingMode::Absolute_X }),
        0x1E => Some(Instruction { mnemonic: Mnemonic::Asl, mode: AddressingMode::Absolute_X }),
        0x20 => Some(Instruction { mnemonic: Mnemonic::Jsr, mode: AddressingMode::Absolute }),
        0x21 => Some(Instruction { mnemonic: Mnemonic::And, mode: AddressingMode::Indirect_X }),
        0x24 => Some(Instruction { mnemonic: Mnemonic::Bit, mode: AddressingMode::Zeropage }),
        0x25 => Some(Instruction { mnemonic: Mnemonic::And, mode: AddressingMode::Zeropage }),
        0x26 => Some(Instruction { mnemonic: Mnemonic::Rol, mode: AddressingMode::Zeropage }),
        0x28 => Some(Instruction { mnemonic: Mnemonic::Plp, mode: AddressingMode::NoneAddressinng }),
        0x29 => Some(Instruction { mnemonic: Mnemonic::And, mode: AddressingMode::Immediate }),
        0x2A => Some(Instruction { mnemonic: Mnemonic::Rol, mode: AddressingMode::Accumulator }),
        0x2C => Some(Instruction { mnemonic: Mnemonic::Bit, mode: AddressingMode::Absolute }),
        0x2D => Some(Instruction { mnemonic: Mnemonic::And, mode: AddressingMode::Absolute }),
        0x2E => Some(Instruction { mnemonic: Mnemonic::Rol, mode: AddressingMode::Absolute }),
        0x30 => Some(Instruction { mnemonic: Mnemonic::Bmi, mode: AddressingMode::Relative }),
        0x31 => Some(Instruction { mnemonic: Mnemonic::And, mode: AddressingMode::Indirect_Y }),
        0x35 => Some(Instruction { mnemonic: Mnemonic::And, mode: AddressingMode::Zeropage_X }),
        0x36 => Some(Instruction { mnemonic: Mnemonic::Rol, mode: AddressingMode::Zeropage_X }),
        0x38 => Some(Instruction { mnemonic: Mnemonic::Sec, mode: AddressingMode::NoneAddressinng }),
        0x39 => Some(Instruction { mnemonic: Mnemonic::And, mode: AddressingMode::Absolute_Y }),
        0x3D => Some(Instruction { mnemonic: Mnemonic::And, mode: AddressingMode::Absolute_X }),
        0x3E => Some(Instruction { mnemonic: Mnemonic::Rol, mode: AddressingMode::Absolute_X }),
        0x40 => Some(Instruction { mnemonic: Mnemonic::Rti, mode: AddressingMode::NoneAddressinng }),
        0x41 => Some(Instruction { mnemonic: Mnemonic::Eor, mode: AddressingMode::Indirect_X }),
        0x45 => Some(Instruction { mnemonic: Mnemonic::Eor, mode: AddressingMode::Zeropage }),
        0x46 => Some(Instruction { mnemonic: Mnemonic::Lsr, mode: AddressingMode::Zeropage }),
        0x48 => Some(Instruction { mnemonic: Mnemonic::Pha, mode: AddressingMode::NoneAddressinng }),
        0x49 => Some(Instruction { mnemonic: Mnemonic::Eor, mode: AddressingMode::Immediate }),
        0x4A => Some(Instruction { mnemonic: Mnemonic::Lsr, mode: AddressingMode::Accumulator }),
        0x4C => Some(Instruction { mnemonic: Mnemonic::Jmp, mode: AddressingMode::Absolute }),
        0x4D => Some(Instruction { mnemonic: Mnemonic::Eor, mode: AddressingMode::Absolute }),
        0x4E => Some(Instruction { mnemonic: Mnemonic::Lsr, mode: AddressingMode::Absolute }),
        0x50 => Some(Instruction { mnemonic: Mnemonic::Bvc, mode: AddressingMode::Relative }),
        0x51 => Some(Instruction { mnemonic: Mnemonic::Eor, mode: AddressingMode::Indirect_Y }),
        0x55 => Some(Instruction { mnemonic: Mnemonic::Eor, mode: AddressingMode::Zeropage_X }),
        0x56 => Some(Instruction { mnemonic: Mnemonic::Lsr, mode: AddressingMode::Zeropage_X }),
        0x58 => Some(Instruction { mnemonic: Mnemonic::Cli, mode: AddressingMode::NoneAddressinng }),
        0x59 => Some(Instruction { mnemonic: Mnemonic::Eor, mode: AddressingMode::Absolute_Y }),
        0x5D => Some(Instruction { mnemonic: Mnemonic::Eor, mode: AddressingMode::Absolute_X }),
        0x5E => Some(Instruction { mnemonic: Mnemonic::Lsr, mode: AddressingMode::Absolute_X }),
        0x60 => Some(Instruction { mnemonic: Mnemonic::Rts, mode: AddressingMode::NoneAddressinng }),
        0x61 => Some(Instruction { mnemonic: Mnemonic::Adc, mode: AddressingMode::Indirect_X }),
        0x65 => Some(Instruction { mnemonic: Mnemonic::Adc, mode: AddressingMode::Zeropage }),
        0x66 => Some(Instruction { mnemonic: Mnemonic::Ror, mode: AddressingMode::Zeropage }),
        0x68 => Some(Instruction { mnemonic: Mnemonic::Pla, mode: AddressingMode::NoneAddressinng }),
        0x69 => Some(Instruction { mnemonic: Mnemonic::Adc, mode: AddressingMode::Immediate }),
        0x6A => Some(Instruction { mnemonic: Mnemonic::Ror, mode: AddressingMode::Accumulator }),
        0x6C => Some(Instruction { mnemonic: Mnemonic::Jmp, mode: AddressingMode::Indirect }),
        0x6D => Some(Instruction { mnemonic: Mnemonic::Adc, mode: AddressingMode::Absolute }),
        0x6E => Some(Instruction { mnemonic: Mnemonic::Ror, mode: AddressingMode::Absolute }),
        0x70 => Some(Instruction { mnemonic: Mnemonic::Bvs, mode: AddressingMode::Relative }),
        0x71 => Some(Instruction { mnemonic: Mnemonic::Adc, mode: AddressingMode::Indirect_Y }),
        0x75 => Some(Instruction { mnemonic: Mnemonic::Adc, mode: AddressingMode::Zeropage_X }),
        0x76 => Some(Instruction { mnemonic: Mnemonic::Ror, mode: AddressingMode::Zeropage_X }),
        0x78 => Some(Instruction { mnemonic: Mnemonic::Sei, mode: AddressingMode::NoneAddressinng }),
        0x79 => Some(Instruction { mnemonic: Mnemonic::Adc, mode: AddressingMode::Absolute_Y }),
        0x7D => Some(Instruction { mnemonic: Mnemonic::Adc, mode: AddressingMode::Absolute_X }),
        0x7E => Some(Instruction { mnemonic: Mnemonic::Ror, mode: AddressingMode::Absolute_X }),
        0x81 => Some(Instruction { mnemonic: Mnemonic::Sta, mode: AddressingMode::Indirect_X }),
        0x84 => Some(Instruction { mnemonic: Mnemonic::Sty, mode: AddressingMode::Zeropage }),
        0x85 => Some(Instruction { mnemonic: Mnemonic::Sta, mode: AddressingMode::Zeropage }),
        0x86 => Some(Instruction { mnemonic: Mnemonic::Stx, mode: AddressingMode::Zeropage }),
        0x88 => Some(Instruction { mnemonic: Mnemonic::Dey, mode: AddressingMode::NoneAddressinng }),
        0x8A => Some(Instruction { mnemonic: Mnemonic::Txa, mode: AddressingMode::NoneAddressinng }),
        0x8C => Some(Instruction { mnemonic: Mnemonic::Sty, mode: AddressingMode::Absolute }),
        0x8D => Some(Instruction { mnemonic: Mnemonic::Sta, mode: AddressingMode::Absolute }),
        0x8E => Some(Instruction { mnemonic: Mnemonic::Stx, mode: AddressingMode::Absolute }),
        0x90 => Some(Instruction { mnemonic: Mnemonic::Bcc, mode: AddressingMode::Relative }),
        0x91 => Some(Instruction { mnemonic: Mnemonic::Sta, mode: AddressingMode::Indirect_Y }),
        0x94 => Some(Instruction { mnemonic: Mnemonic::Sty, mode: AddressingMode::Zeropage_X }),
        0x95 => Some(Instruction { mnemonic: Mnemonic::Sta, mode: AddressingMode::Zeropage_X }),
        0x96 => Some(Instruction { mnemonic: Mnemonic::Stx, mode: AddressingMode::Zeropage_Y }),
        0x98 => Some(Instruction { mnemonic: Mnemonic::Tya, mode: AddressingMode::NoneAddressinng }),
        0x99 => Some(Instruction { mnemonic: Mnemonic::Sta, mode: AddressingMode::Absolute_Y }),
        0x9A => Some(Instruction { mnemonic: Mnemonic::Txs, mode: AddressingMode::NoneAddressinng }),
        0x9D => Some(Instruction { mnemonic: Mnemonic::Sta, mode: AddressingMode::Absolute_X }),
        0xA0 => Some(Instruction { mnemonic: Mnemonic::Ldy, mode: AddressingMode::Immediate }),
        0xA1 => Some(Instruction { mnemonic: Mnemonic::Lda, mode: AddressingMode::Indirect_X }),
        0xA2 => Some(Instruction { mnemonic: Mnemonic::Ldx, mode: AddressingMode::Immediate }),
        0xA4 => Some(Instruction { mnemonic: Mnemonic::Ldy, mode: AddressingMode::Zeropage }),
        0xA5 => Some(Instruction { mnemonic: Mnemonic::Lda, mode: AddressingMode::Zeropage }),
        0xA6 => Some(Instruction { mnemonic: Mnemonic::Ldx, mode: AddressingMode::Zeropage }),
        0xA8 => Some(Instruction { mnemonic: Mnemonic::Tay, mode: AddressingMode::NoneAddressinng }),
        0xA9 => Some(Instruction { mnemonic: Mnemonic::Lda, mode: AddressingMode::Immediate }),
        0xAA => Some(Instruction { mnemonic: Mnemonic::Tax, mode: AddressingMode::NoneAddressinng }),
        0xAC => Some(Instruction { mnemonic: Mnemonic::Ldy, mode: AddressingMode::Absolute }),
        0xAD => Some(Instruction { mnemonic: Mnemonic::Lda, mode: AddressingMode::Absolute }),
        0xAE => Some(Instruction { mnemonic: Mnemonic::Ldx, mode: AddressingMode::Absolute }),
        0xB0 => Some(Instruction { mnemonic: Mnemonic::Bcs, mode: AddressingMode::Relative }),
        0xB1 => Some(Instruction { mnemonic: Mnemonic::Lda, mode: AddressingMode::Indirect_Y }),
        0xB4 => Some(Instruction { mnemonic: Mnemonic::Ldy, mode: AddressingMode::Zeropage_X }),
        0xB5 => Some(Instruction { mnemonic: Mnemonic::Lda, mode: AddressingMode::Zeropage_X }),
        0xB6 => Some(Instruction { mnemonic: Mnemonic::Ldx, mode: AddressingMode::Zeropage_Y }),
        0xB8 => Some(Instruction { mnemonic: Mnemonic::Clv, mode: AddressingMode::NoneAddressinng }),
        0xB9 => Some(Instruction { mnemonic: Mnemonic::Lda, mode: AddressingMode::Absolute_Y }),
        0xBA => Some(Instruction { mnemonic: Mnemonic::Tsx, mode: AddressingMode::NoneAddressinng }),
        0xBC => Some(Instruction { mnemonic: Mnemonic::Ldy, mode: AddressingMode::Absolute_X }),
        0xBD => Some(Instruction { mnemonic: Mnemonic::Lda, mode: AddressingMode::Absolute_X }),
        0xBE => Some(Instruction { mnemonic: Mnemonic::Ldx, mode: AddressingMode::Absolute_Y }),
        0xC0 => Some(Instruction { mnemonic: Mnemonic::Cpy, mode: AddressingMode::Immediate }),
        0xC1 => Some(Instruction { mnemonic: Mnemonic::Cmp, mode: AddressingMode::Indirect_X }),
        0xC4 => Some(Instruction { mnemonic: Mnemonic::Cpy, mode: AddressingMode::Zeropage }),
        0xC5 => Some(Instruction { mnemonic: Mnemonic::Cmp, mode: AddressingMode::Zeropage }),
        0xC6 => Some(Instruction { mnemonic: Mnemonic::Dec, mode: AddressingMode::Zeropage }),
        0xC8 => Some(Instruction { mnemonic: Mnemonic::Iny, mode: AddressingMode::NoneAddressinng }),
        0xC9 => Some(Instruction { mnemonic: Mnemonic::Cmp, mode: AddressingMode::Immediate }),
        0xCA => Some(Instruction { mnemonic: Mnemonic::Dex, mode: AddressingMode::NoneAddressinng }),
        0xCC => Some(Instruction { mnemonic: Mnemonic::Cpy, mode: AddressingMode::Absolute }),
        0xCD => Some(Instruction { mnemonic: Mnemonic::Cmp, mode: AddressingMode::Absolute }),
        0xCE => Some(Instruction { mnemonic: Mnemonic::Dec, mode: AddressingMode::Absolute }),
        0xD0 => Some(Instruction { mnemonic: Mnemonic::Bne, mode: AddressingMode::Relative }),
        0xD1 => Some(Instruction { mnemonic: Mnemonic::Cmp, mode: AddressingMode::Indirect_Y }),
        0xD5 => Some(Instruction { mnemonic: Mnemonic::Cmp, mode: AddressingMode::Zeropage_X }),
        0xD6 => Some(Instruction { mnemonic: Mnemonic::Dec, mode: AddressingMode::Zeropage_X }),
        0xD8 => Some(Instruction { mnemonic: Mnemonic::Cld, mode: AddressingMode::NoneAddressinng }),
        0xD9 => Some(Instruction { mnemonic: Mnemonic::Cmp, mode: AddressingMode::Absolute_Y }),
        0xDD => Some(Instruction { mnemonic: Mnemonic::Cmp, mode: AddressingMode::Absolute_X }),
        0xDE => Some(Instruction { mnemonic: Mnemonic::Dec, mode: AddressingMode::Absolute_X }),
        0xE0 => Some(Instruction { mnemonic: Mnemonic::Cpx, mode: AddressingMode::Immediate }),
        0xE1 => Some(Instruction { mnemonic: Mnemonic::Sbc, mode: AddressingMode::Indirect_X }),
        0xE4 => Some(Instruction { mnemonic: Mnemonic::Cpx, mode: AddressingMode::Zeropage }),
        0xE5 => Some(Instruction { mnemonic: Mnemonic::Sbc, mode: AddressingMode::Zeropage }),
        0xE6 => Some(Instruction { mnemonic: Mnemonic::Inc, mode: AddressingMode::Zeropage }),
        0xE8 => Some(Instruction { mnemonic: Mnemonic::Inx, mode: AddressingMode::NoneAddressinng }),
        0xE9 => Some(Instruction { mnemonic: Mnemonic::Sbc, mode: AddressingMode::Immediate }),
        0xEA => Some(Instruction { mnemonic: Mnemonic::Nop, mode: AddressingMode::NoneAddressinng }),
        0xEC => Some(Instruction { mnemonic: Mnemonic::Cpx, mode: AddressingMode::Absolute }),
        0xED => Some(Instruction { mnemonic: Mnemonic::Sbc, mode: AddressingMode::Absolute }),
        0xEE => Some(Instruction { mnemonic: Mnemonic::Inc, mode: AddressingMode::Absolute }),
        0xF0 => Some(Instruction { mnemonic: Mnemonic::Beq, mode: AddressingMode::Relative }),
        0xF1 => Some(Instruction { mnemonic: Mnemonic::Sbc, mode: AddressingMode::Indirect_Y }),
        0xF5 => Some(Instruction { mnemonic: Mnemonic::Sbc, mode: AddressingMode::Zeropage_X }),
        0xF6 => Some(Instruction { mnemonic: Mnemonic::Inc, mode: AddressingMode::Zeropage_X }),
        0xF8 => Some(Instruction { mnemonic: Mnemonic::Sed, mode: AddressingMode::NoneAddressinng }),
        0xF9 => Some(Instruction { mnemonic: Mnemonic::Sbc, mode: AddressingMode::Absolute_Y }),
        0xFD => Some(Instruction { mnemonic: Mnemonic::Sbc, mode: AddressingMode::Absolute_X }),
        0xFE => Some(Instruction { mnemonic: Mnemonic::Inc, mode: AddressingMode::Absolute_X }),
        _ => None,
    }
}

/// The opcode byte of `mnemonic` with `mode`, as an assembler looks it up,
/// or `None` where the processor has no such instruction.
pub open spec fn encoding(mnemonic: Mnemonic, mode: AddressingMode) -> Option<u8> {
    match mnemonic {
        Mnemonic::Adc => match mode {
            AddressingMode::Immediate => Some(0x69),
            AddressingMode::Zeropage => Some(0x65),
            AddressingMode::Zeropage_X => Some(0x75),
            AddressingMode::Absolute => Some(0x6D),
            AddressingMode::Absolute_X => Some(0x7D),
            AddressingMode::Absolute_Y => Some(0x79),
            AddressingMode::Indirect_X => Some(0x61),
            AddressingMode::Indirect_Y => Some(0x71),
            _ => None,
        },
        Mnemonic::And => match mode {
            AddressingMode::Immediate => Some(0x29),
            AddressingMode::Zeropage => Some(0x25),
            AddressingMode::Zeropage_X => Some(0x35),
            AddressingMode::Absolute => Some(0x2D),
            AddressingMode::Absolute_X => Some(0x3D),
            AddressingMode::Absolute_Y => Some(0x39),
            AddressingMode::Indirect_X => Some(0x21),
            AddressingMode::Indirect_Y => Some(0x31),
            _ => None,
        },
        Mnemonic::Asl => match mode {
            AddressingMode::Accumulator => Some(0x0A),
            AddressingMode::Zeropage => Some(0x06),
            AddressingMode::Zeropage_X => Some(0x16),
            AddressingMode::Absolute => Some(0x0E),
            AddressingMode::Absolute_X => Some(0x1E),
            _ => None,
        },
        Mnemonic::Bcc => match mode {
            AddressingMode::Relative => Some(0x90),
            _ => None,
        },
        Mnemonic::Bcs => match mode {
            AddressingMode::Relative => Some(0xB0),
            _ => None,
        },
        Mnemonic::Beq => match mode {
            AddressingMode::Relative => Some(0xF0),
            _ => None,
        },
        Mnemonic::Bit => match mode {
            AddressingMode::Zeropage => Some(0x24),
            AddressingMode::Absolute => Some(0x2C),
            _ => None,
        },
        Mnemonic::Bmi => match mode {
            AddressingMode::Relative => Some(0x30),
            _ => None,
        },
        Mnemonic::Bne => match mode {
            AddressingMode::Relative => Some(0xD0),
            _ => None,
        },
        Mnemonic::Bpl => match mode {
            AddressingMode::Relative => Some(0x10),
            _ => None,
        },
        Mnemonic::Brk => match mode {
            AddressingMode::NoneAddressinng => Some(0x00),
            _ => None,
        },
        Mnemonic::Bvc => match mode {
            AddressingMode::Relative => Some(0x50),
            _ => None,
        },
        Mnemonic::Bvs => match mode {
            AddressingMode::Relative => Some(0x70),
            _ => None,
        },
        Mnemonic::Clc => match mode {
            AddressingMode::NoneAddressinng => Some(0x18),
            _ => None,
        },
        Mnemonic::Cld => match mode {
            AddressingMode::NoneAddressinng => Some(0xD8),
            _ => None,
        },
        Mnemonic::Cli => match mode {
            AddressingMode::NoneAddressinng => Some(0x58),
            _ => None,
        },
        Mnemonic::Clv => match mode {
            AddressingMode::NoneAddressinng => Some(0xB8),
            _ => None,
        },
        Mnemonic::Cmp => match mode {
            AddressingMode::Immediate => Some(0xC9),
            AddressingMode::Zeropage => Some(0xC5),
            AddressingMode::Zeropage_X => Some(0xD5),
            AddressingMode::Absolute => Some(0xCD),
            AddressingMode::Absolute_X => Some(0xDD),
            AddressingMode::Absolute_Y => Some(0xD9),
            AddressingMode::Indirect_X => Some(0xC1),
            AddressingMode::Indirect_Y => Some(0xD1),
            _ => None,
        },
        Mnemonic::Cpx => match mode {
            AddressingMode::Immediate => Some(0xE0),
            AddressingMode::Zeropage => Some(0xE4),
            AddressingMode::Absolute => Some(0xEC),
            _ => None,
        },
        Mnemonic::Cpy => match mode {
            AddressingMode::Immediate => Some(0xC0),
            AddressingMode::Zeropage => Some(0xC4),
            AddressingMode::Absolute => Some(0xCC),
            _ => None,
        },
        Mnemonic::Dec => match mode {
            AddressingMode::Zeropage => Some(0xC6),
            AddressingMode::Zeropage_X => Some(0xD6),
            AddressingMode::Absolute => Some(0xCE),
            AddressingMode::Absolute_X => Some(0xDE),
            _ => None,
        },
        Mnemonic::Dex => match mode {
            AddressingMode::NoneAddressinng => Some(0xCA),
            _ => None,
        },
        Mnemonic::Dey => match mode {
            AddressingMode::NoneAddressinng => Some(0x88),
            _ => None,
        },
        Mnemonic::Eor => match mode {
            AddressingMode::Immediate => Some(0x49),
            AddressingMode::Zeropage => Some(0x45),
            AddressingMode::Zeropage_X => Some(0x55),
            AddressingMode::Absolute => Some(0x4D),
            AddressingMode::Absolute_X => Some(0x5D),
            AddressingMode::Absolute_Y => Some(0x59),
            AddressingMode::Indirect_X => Some(0x41),
            AddressingMode::Indirect_Y => Some(0x51),
            _ => None,
        },
        Mnemonic::Inc => match mode {
            AddressingMode::Zeropage => Some(0xE6),
            AddressingMode::Zeropage_X => Some(0xF6),
            AddressingMode::Absolute => Some(0xEE),
            AddressingMode::Absolute_X => Some(0xFE),
            _ => None,
        },
        Mnemonic::Inx => match mode {
            AddressingMode::NoneAddressinng => Some(0xE8),
            _ => None,
        },
        Mnemonic::Iny => match mode {
            AddressingMode::NoneAddressinng => Some(0xC8),
            _ => None,
        },
        Mnemonic::Jmp => match mode {
            AddressingMode::Absolute => Some(0x4C),
            AddressingMode::Indirect => Some(0x6C),
            _ => None,
        },
        Mnemonic::Jsr => match mode {
            AddressingMode::Absolute => Some(0x20),
            _ => None,
        },
        Mnemonic::Lda => match mode {
            AddressingMode::Immediate => Some(0xA9),
            AddressingMode::Zeropage => Some(0xA5),
            AddressingMode::Zeropage_X => Some(0xB5),
            AddressingMode::Absolute => Some(0xAD),
            AddressingMode::Absolute_X => Some(0xBD),
            AddressingMode::Absolute_Y => Some(0xB9),
            AddressingMode::Indirect_X => Some(0xA1),
            AddressingMode::Indirect_Y => Some(0xB1),
            _ => None,
        },
        Mnemonic::Ldx => match mode {
            AddressingMode::Immediate => Some(0xA2),
            AddressingMode::Zeropage => Some(0xA6),
            AddressingMode::Zeropage_Y => Some(0xB6),
            AddressingMode::Absolute => Some(0xAE),
            AddressingMode::Absolute_Y => Some(0xBE),
            _ => None,
        },
        Mnemonic::Ldy => match mode {
            AddressingMode::Immediate => Some(0xA0),
            AddressingMode::Zeropage => Some(0xA4),
            AddressingMode::Zeropage_X => Some(0xB4),
            AddressingMode::Absolute => Some(0xAC),
            AddressingMode::Absolute_X => Some(0xBC),
            _ => None,
        },
        Mnemonic::Lsr => match mode {
            AddressingMode::Accumulator => Some(0x4A),
            AddressingMode::Zeropage => Some(0x46),
            AddressingMode::Zeropage_X => Some(0x56),
            AddressingMode::Absolute => Some(0x4E),
            AddressingMode::Absolute_X => Some(0x5E),
            _ => None,
        },
        Mnemonic::Nop => match mode {
            AddressingMode::NoneAddressinng => Some(0xEA),
            _ => None,
        },
        Mnemonic::Ora => match mode {
            AddressingMode::Immediate => Some(0x09),
            AddressingMode::Zeropage => Some(0x05),
            AddressingMode::Zeropage_X => Some(0x15),
            AddressingMode::Absolute => Some(0x0D),
            AddressingMode::Absolute_X => Some(0x1D),
            AddressingMode::Absolute_Y => Some(0x19),
            AddressingMode::Indirect_X => Some(0x01),
            AddressingMode::Indirect_Y => Some(0x11),
            _ => None,
        },
        Mnemonic::Pha => match mode {
            AddressingMode::NoneAddressinng => Some(0x48),
            _ => None,
        },
        Mnemonic::Php => match mode {
            AddressingMode::NoneAddressinng => Some(0x08),
            _ => None,
        },
        Mnemonic::Pla => match mode {
            AddressingMode::NoneAddressinng => Some(0x68),
            _ => None,
        },
        Mnemonic::Plp => match mode {
            AddressingMode::NoneAddressinng => Some(0x28),
            _ => None,
        },
        Mnemonic::Rol => match mode {
            AddressingMode::Accumulator => Some(0x2A),
            AddressingMode::Zeropage => Some(0x26),
            AddressingMode::Zeropage_X => Some(0x36),
            AddressingMode::Absolute => Some(0x2E),
            AddressingMode::Absolute_X => Some(0x3E),
            _ => None,
        },
        Mnemonic::Ror => match mode {
            AddressingMode::Accumulator => Some(0x6A),
            AddressingMode::Zeropage => Some(0x66),
            AddressingMode::Zeropage_X => Some(0x76),
            AddressingMode::Absolute => Some(0x6E),
            AddressingMode::Absolute_X => Some(0x7E),
            _ => None,
        },
        Mnemonic::Rti => match mode {
            AddressingMode::NoneAddressinng => Some(0x40),
            _ => None,
        },
        Mnemonic::Rts => match mode {
            AddressingMode::NoneAddressinng => Some(0x60),
            _ => None,
        },
        Mnemonic::Sbc => match mode {
            AddressingMode::Immediate => Some(0xE9),
            AddressingMode::Zeropage => Some(0xE5),
            AddressingMode::Zeropage_X => Some(0xF5),
            AddressingMode::Absolute => Some(0xED),
            AddressingMode::Absolute_X => Some(0xFD),
            AddressingMode::Absolute_Y => Some(0xF9),
            AddressingMode::Indirect_X => Some(0xE1),
            AddressingMode::Indirect_Y => Some(0xF1),
            _ => None,
        },
        Mnemonic::Sec => match mode {
            AddressingMode::NoneAddressinng => Some(0x38),
            _ => None,
        },
        Mnemonic::Sed => match mode {
            AddressingMode::NoneAddressinng => Some(0xF8),
            _ => None,
        },
        Mnemonic::Sei => match mode {
            AddressingMode::NoneAddressinng => Some(0x78),
            _ => None,
        },
        Mnemonic::Sta => match mode {
            AddressingMode::Zeropage => Some(0x85),
            AddressingMode::Zeropage_X => Some(0x95),
            AddressingMode::Absolute => Some(0x8D),
            AddressingMode::Absolute_X => Some(0x9D),
            AddressingMode::Absolute_Y => Some(0x99),
            AddressingMode::Indirect_X => Some(0x81),
            AddressingMode::Indirect_Y => Some(0x91),
            _ => None,
        },
        Mnemonic::Stx => match mode {
            AddressingMode::Zeropage => Some(0x86),
            AddressingMode::Zeropage_Y => Some(0x96),
            AddressingMode::Absolute => Some(0x8E),
            _ => None,
        },
        Mnemonic::Sty => match mode {
            AddressingMode::Zeropage => Some(0x84),
            AddressingMode::Zeropage_X => Some(0x94),
            AddressingMode::Absolute => Some(0x8C),
            _ => None,
        },
        Mnemonic::Tax => match mode {
            AddressingMode::NoneAddressinng => Some(0xAA),
            _ => None,
        },
        Mnemonic::Tay => match mode {
            AddressingMode::NoneAddressinng => Some(0xA8),
            _ => None,
        },
        Mnemonic::Tsx => match mode {
            AddressingMode::NoneAddressinng => Some(0xBA),
            _ => None,
        },
        Mnemonic::Txa => match mode {
            AddressingMode::NoneAddressinng => Some(0x8A),
            _ => None,
        },
        Mnemonic::Txs => match mode {
            AddressingMode::NoneAddressinng => Some(0x9A),
            _ => None,
        },
        Mnemonic::Tya => match mode {
            AddressingMode::NoneAddressinng => Some(0x98),
            _ => None,
        },
    }
}

/// The instruction that `opcode` stands for, or `None` for an illegal
/// opcode.
pub fn decode(opcode: u8) -> (instruction: Option<Instruction>)
    ensures
        instruction == decoded(opcode),
{
    match opcode {
        0x00 => Some(Instruction { mnemonic: Mnemonic::Brk, mode: AddressingMode::NoneAddressinng }),
        0x01 => Some(Instruction { mnemonic: Mnemonic::Ora, mode: AddressingMode::Indirect_X }),
        0x05 => Some(Instruction { mnemonic: Mnemonic::Ora, mode: AddressingMode::Zeropage }),
        0x06 => Some(Instruction { mnemonic: Mnemonic::Asl, mode: AddressingMode::Zeropage }),
        0x08 => Some(Instruction { mnemonic: Mnemonic::Php, mode: AddressingMode::NoneAddressinng }),
        0x09 => Some(Instruction { mnemonic: Mnemonic::Ora, mode: AddressingMode::Immediate }),
        0x0A => Some(Instruction { mnemonic: Mnemonic::Asl, mode: AddressingMode::Accumulator }),
        0x0D => Some(Instruction { mnemonic: Mnemonic::Ora, mode: AddressingMode::Absolute }),
        0x0E => Some(Instruction { mnemonic: Mnemonic::Asl, mode: AddressingMode::Absolute }),
        0x10 => Some(Instruction { mnemonic: Mnemonic::Bpl, mode: AddressingMode::Relative }),
        0x11 => Some(Instruction { mnemonic: Mnemonic::Ora, mode: AddressingMode::Indirect_Y }),
        0x15 => Some(Instruction { mnemonic: Mnemonic::Ora, mode: AddressingMode::Zeropage_X }),
        0x16 => Some(Instruction { mnemonic: Mnemonic::Asl, mode: AddressingMode::Zeropage_X }),
        0x18 => Some(Instruction { mnemonic: Mnemonic::Clc, mode: AddressingMode::NoneAddressinng }),
        0x19 => Some(Instruction { mnemonic: Mnemonic::Ora, mode: AddressingMode::Absolute_Y }),
        0x1D => Some(Instruction { mnemonic: Mnemonic::Ora, mode: AddressingMode::Absolute_X }),
        0x1E => Some(Instruction { mnemonic: Mnemonic::Asl, mode: AddressingMode::Absolute_X }),
        0x20 => Some(Instruction { mnemonic: Mnemonic::Jsr, mode: AddressingMode::Absolute }),
        0x21 => Some(Instruction { mnemonic: Mnemonic::And, mode: AddressingMode::Indirect_X }),
        0x24 => Some(Instruction { mnemonic: Mnemonic::Bit, mode: AddressingMode::Zeropage }),
        0x25 => Some(Instruction { mnemonic: Mnemonic::And, mode: AddressingMode::Zeropage }),
        0x26 => Some(Instruction { mnemonic: Mnemonic::Rol, mode: AddressingMode::Zeropage }),
        0x28 => Some(Instruction { mnemonic: Mnemonic::Plp, mode: AddressingMode::NoneAddressinng }),
        0x29 => Some(Instruction { mnemonic: Mnemonic::And, mode: AddressingMode::Immediate }),
        0x2A => Some(Instruction { mnemonic: Mnemonic::Rol, mode: AddressingMode::Accumulator }),
        0x2C => Some(Instruction { mnemonic: Mnemonic::Bit, mode: AddressingMode::Absolute }),
        0x2D => Some(Instruction { mnemonic: Mnemonic::And, mode: AddressingMode::Absolute }),
        0x2E => Some(Instruction { mnemonic: Mnemonic::Rol, mode: AddressingMode::Absolute }),
        0x30 => Some(Instruction { mnemonic: Mnemonic::Bmi, mode: AddressingMode::Relative }),
        0x31 => Some(Instruction { mnemonic: Mnemonic::And, mode: AddressingMode::Indirect_Y }),
        0x35 => Some(Instruction { mnemonic: Mnemonic::And, mode: AddressingMode::Zeropage_X }),
        0x36 => Some(Instruction { mnemonic: Mnemonic::Rol, mode: AddressingMode::Zeropage_X }),
        0x38 => Some(Instruction { mnemonic: Mnemonic::Sec, mode: AddressingMode::NoneAddressinng }),
        0x39 => Some(Instruction { mnemonic: Mnemonic::And, mode: AddressingMode::Absolute_Y }),
        0x3D => Some(Instruction { mnemonic: Mnemonic::And, mode: AddressingMode::Absolute_X }),
        0x3E => Some(Instruction { mnemonic: Mnemonic::Rol, mode: AddressingMode::Absolute_X }),
        0x40 => Some(Instruction { mnemonic: Mnemonic::Rti, mode: AddressingMode::NoneAddressinng }),
        0x41 => Some(Instruction { mnemonic: Mnemonic::Eor, mode: AddressingMode::Indirect_X }),
        0x45 => Some(Instruction { mnemonic: Mnemonic::Eor, mode: AddressingMode::Zeropage }),
        0x46 => Some(Instruction { mnemonic: Mnemonic::Lsr, mode: AddressingMode::Zeropage }),
        0x48 => Some(Instruction { mnemonic: Mnemonic::Pha, mode: AddressingMode::NoneAddressinng }),
        0x49 => Some(Instruction { mnemonic: Mnemonic::Eor, mode: AddressingMode::Immediate }),
        0x4A => Some(Instruction { mnemonic: Mnemonic::Lsr, mode: AddressingMode::Accumulator }),
        0x4C => Some(Instruction { mnemonic: Mnemonic::Jmp, mode: AddressingMode::Absolute }),
        0x4D => Some(Instruction { mnemonic: Mnemonic::Eor, mode: AddressingMode::Absolute }),
        0x4E => Some(Instruction { mnemonic: Mnemonic::Lsr, mode: AddressingMode::Absolute }),
        0x50 => Some(Instruction { mnemonic: Mnemonic::Bvc, mode: AddressingMode::Relative }),
        0x51 => Some(Instruction { mnemonic: Mnemonic::Eor, mode: AddressingMode::Indirect_Y }),
        0x55 => Some(Instruction { mnemonic: Mnemonic::Eor, mode: AddressingMode::Zeropage_X }),
        0x56 => Some(Instruction { mnemonic: Mnemonic::Lsr, mode: AddressingMode::Zeropage_X }),
        0x58 => Some(Instruction { mnemonic: Mnemonic::Cli, mode: AddressingMode::NoneAddressinng }),
        0x59 => Some(Instruction { mnemonic: Mnemonic::Eor, mode: AddressingMode::Absolute_Y }),
        0x5D => Some(Instruction { mnemonic: Mnemonic::Eor, mode: AddressingMode::Absolute_X }),
        0x5E => Some(Instruction { mnemonic: Mnemonic::Lsr, mode: AddressingMode::Absolute_X }),
        0x60 => Some(Instruction { mnemonic: Mnemonic::Rts, mode: AddressingMode::NoneAddressinng }),
        0x61 => Some(Instruction { mnemonic: Mnemonic::Adc, mode: AddressingMode::Indirect_X }),
        0x65 => Some(Instruction { mnemonic: Mnemonic::Adc, mode: AddressingMode::Zeropage }),
        0x66 => Some(Instruction { mnemonic: Mnemonic::Ror, mode: AddressingMode::Zeropage }),
        0x68 => Some(Instruction { mnemonic: Mnemonic::Pla, mode: AddressingMode::NoneAddressinng }),
        0x69 => Some(Instruction { mnemonic: Mnemonic::Adc, mode: AddressingMode::Immediate }),
        0x6A => Some(Instruction { mnemonic: Mnemonic::Ror, mode: AddressingMode::Accumulator }),
        0x6C => Some(Instruction { mnemonic: Mnemonic::Jmp, mode: AddressingMode::Indirect }),
        0x6D => Some(Instruction { mnemonic: Mnemonic::Adc, mode: AddressingMode::Absolute }),
        0x6E => Some(Instruction { mnemonic: Mnemonic::Ror, mode: AddressingMode::Absolute }),
        0x70 => Some(Instruction { mnemonic: Mnemonic::Bvs, mode: AddressingMode::Relative }),
        0x71 => Some(Instruction { mnemonic: Mnemonic::Adc, mode: AddressingMode::Indirect_Y }),
        0x75 => Some(Instruction { mnemonic: Mnemonic::Adc, mode: AddressingMode::Zeropage_X }),
        0x76 => Some(Instruction { mnemonic: Mnemonic::Ror, mode: AddressingMode::Zeropage_X }),
        0x78 => Some(Instruction { mnemonic: Mnemonic::Sei, mode: AddressingMode::NoneAddressinng }),
        0x79 => Some(Instruction { mnemonic: Mnemonic::Adc, mode: AddressingMode::Absolute_Y }),
        0x7D => Some(Instruction { mnemonic: Mnemonic::Adc, mode: AddressingMode::Absolute_X }),
        0x7E => Some(Instruction { mnemonic: Mnemonic::Ror, mode: AddressingMode::Absolute_X }),
        0x81 => Some(Instruction { mnemonic: Mnemonic::Sta, mode: AddressingMode::Indirect_X }),
        0x84 => Some(Instruction { mnemonic: Mnemonic::Sty, mode: AddressingMode::Zeropage }),
        0x85 => Some(Instruction { mnemonic: Mnemonic::Sta, mode: AddressingMode::Zeropage }),
        0x86 => Some(Instruction { mnemonic: Mnemonic::Stx, mode: AddressingMode::Zeropage }),
        0x88 => Some(Instruction { mnemonic: Mnemonic::Dey, mode: AddressingMode::NoneAddressinng }),
        0x8A => Some(Instruction { mnemonic: Mnemonic::Txa, mode: AddressingMode::NoneAddressinng }),
        0x8C => Some(Instruction { mnemonic: Mnemonic::Sty, mode: AddressingMode::Absolute }),
        0x8D => Some(Instruction { mnemonic: Mnemonic::Sta, mode: AddressingMode::Absolute }),
        0x8E => Some(Instruction { mnemonic: Mnemonic::Stx, mode: AddressingMode::Absolute }),
        0x90 => Some(Instruction { mnemonic: Mnemonic::Bcc, mode: AddressingMode::Relative }),
        0x91 => Some(Instruction { mnemonic: Mnemonic::Sta, mode: AddressingMode::Indirect_Y }),
        0x94 => Some(Instruction { mnemonic: Mnemonic::Sty, mode: AddressingMode::Zeropage_X }),
        0x95 => Some(Instruction { mnemonic: Mnemonic::Sta, mode: AddressingMode::Zeropage_X }),
        0x96 => Some(Instruction { mnemonic: Mnemonic::Stx, mode: AddressingMode::Zeropage_Y }),
        0x98 => Some(Instruction { mnemonic: Mnemonic::Tya, mode: AddressingMode::NoneAddressinng }),
        0x99 => Some(Instruction { mnemonic: Mnemonic::Sta, mode: AddressingMode::Absolute_Y }),
        0x9A => Some(Instruction { mnemonic: Mnemonic::Txs, mode: AddressingMode::NoneAddressinng }),
        0x9D => Some(Instruction { mnemonic: Mnemonic::Sta, mode: AddressingMode::Absolute_X }),
        0xA0 => Some(Instruction { mnemonic: Mnemonic::Ldy, mode: AddressingMode::Immediate }),
        0xA1 => Some(Instruction { mnemonic: Mnemonic::Lda, mode: AddressingMode::Indirect_X }),
        0xA2 => Some(Instruction { mnemonic: Mnemonic::Ldx, mode: AddressingMode::Immediate }),
        0xA4 => Some(Instruction { mnemonic: Mnemonic::Ldy, mode: AddressingMode::Zeropage }),
        0xA5 => Some(Instruction { mnemonic: Mnemonic::Lda, mode: AddressingMode::Zeropage }),
        0xA6 => Some(Instruction { mnemonic: Mnemonic::Ldx, mode: AddressingMode::Zeropage }),
        0xA8 => Some(Instruction { mnemonic: Mnemonic::Tay, mode: AddressingMode::NoneAddressinng }),
        0xA9 => Some(Instruction { mnemonic: Mnemonic::Lda, mode: AddressingMode::Immediate }),
        0xAA => Some(Instruction { mnemonic: Mnemonic::Tax, mode: AddressingMode::NoneAddressinng }),
        0xAC => Some(Instruction { mnemonic: Mnemonic::Ldy, mode: AddressingMode::Absolute }),
        0xAD => Some(Instruction { mnemonic: Mnemonic::Lda, mode: AddressingMode::Absolute }),
        0xAE => Some(Instruction { mnemonic: Mnemonic::Ldx, mode: AddressingMode::Absolute }),
        0xB0 => Some(Instruction { mnemonic: Mnemonic::Bcs, mode: AddressingMode::Relative }),
        0xB1 => Some(Instruction { mnemonic: Mnemonic::Lda, mode: AddressingMode::Indirect_Y }),
        0xB4 => Some(Instruction { mnemonic: Mnemonic::Ldy, mode: AddressingMode::Zeropage_X }),
        0xB5 => Some(Instruction { mnemonic: Mnemonic::Lda, mode: AddressingMode::Zeropage_X }),
        0xB6 => Some(Instruction { mnemonic: Mnemonic::Ldx, mode: AddressingMode::Zeropage_Y }),
        0xB8 => Some(Instruction { mnemonic: Mnemonic::Clv, mode: AddressingMode::NoneAddressinng }),
        0xB9 => Some(Instruction { mnemonic: Mnemonic::Lda, mode: AddressingMode::Absolute_Y }),
        0xBA => Some(Instruction { mnemonic: Mnemonic::Tsx, mode: AddressingMode::NoneAddressinng }),
        0xBC => Some(Instruction { mnemonic: Mnemonic::Ldy, mode: AddressingMode::Absolute_X }),
        0xBD => Some(Instruction { mnemonic: Mnemonic::Lda, mode: AddressingMode::Absolute_X }),
        0xBE => Some(Instruction { mnemonic: Mnemonic::Ldx, mode: AddressingMode::Absolute_Y }),
        0xC0 => Some(Instruction { mnemonic: Mnemonic::Cpy, mode: AddressingMode::Immediate }),
        0xC1 => Some(Instruction { mnemonic: Mnemonic::Cmp, mode: AddressingMode::Indirect_X }),
        0xC4 => Some(Instruction { mnemonic: Mnemonic::Cpy, mode: AddressingMode::Zeropage }),
        0xC5 => Some(Instruction { mnemonic: Mnemonic::Cmp, mode: AddressingMode::Zeropage }),
        0xC6 => Some(Instruction { mnemonic: Mnemonic::Dec, mode: AddressingMode::Zeropage }),
        0xC8 => Some(Instruction { mnemonic: Mnemonic::Iny, mode: AddressingMode::NoneAddressinng }),
        0xC9 => Some(Instruction { mnemonic: Mnemonic::Cmp, mode: AddressingMode::Immediate }),
        0xCA => Some(Instruction { mnemonic: Mnemonic::Dex, mode: AddressingMode::NoneAddressinng }),
        0xCC => Some(Instruction { mnemonic: Mnemonic::Cpy, mode: AddressingMode::Absolute }),
        0xCD => Some(Instruction { mnemonic: Mnemonic::Cmp, mode: AddressingMode::Absolute }),
        0xCE => Some(Instruction { mnemonic: Mnemonic::Dec, mode: AddressingMode::Absolute }),
        0xD0 => Some(Instruction { mnemonic: Mnemonic::Bne, mode: AddressingMode::Relative }),
        0xD1 => Some(Instruction { mnemonic: Mnemonic::Cmp, mode: AddressingMode::Indirect_Y }),
        0xD5 => Some(Instruction { mnemonic: Mnemonic::Cmp, mode: AddressingMode::Zeropage_X }),
        0xD6 => Some(Instruction { mnemonic: Mnemonic::Dec, mode: AddressingMode::Zeropage_X }),
        0xD8 => Some(Instruction { mnemonic: Mnemonic::Cld, mode: AddressingMode::NoneAddressinng }),
        0xD9 => Some(Instruction { mnemonic: Mnemonic::Cmp, mode: AddressingMode::Absolute_Y }),
        0xDD => Some(Instruction { mnemonic: Mnemonic::Cmp, mode: AddressingMode::Absolute_X }),
        0xDE => Some(Instruction { mnemonic: Mnemonic::Dec, mode: AddressingMode::Absolute_X }),
        0xE0 => Some(Instruction { mnemonic: Mnemonic::Cpx, mode: AddressingMode::Immediate }),
        0xE1 => Some(Instruction { mnemonic: Mnemonic::Sbc, mode: AddressingMode::Indirect_X }),
        0xE4 => Some(Instruction { mnemonic: Mnemonic::Cpx, mode: AddressingMode::Zeropage }),
        0xE5 => Some(Instruction { mnemonic: Mnemonic::Sbc, mode: AddressingMode::Zeropage }),
        0xE6 => Some(Instruction { mnemonic: Mnemonic::Inc, mode: AddressingMode::Zeropage }),
        0xE8 => Some(Instruction { mnemonic: Mnemonic::Inx, mode: AddressingMode::NoneAddressinng }),
        0xE9 => Some(Instruction { mnemonic: Mnemonic::Sbc, mode: AddressingMode::Immediate }),
        0xEA => Some(Instruction { mnemonic: Mnemonic::Nop, mode: AddressingMode::NoneAddressinng }),
        0xEC => Some(Instruction { mnemonic: Mnemonic::Cpx, mode: AddressingMode::Absolute }),
        0xED => Some(Instruction { mnemonic: Mnemonic::Sbc, mode: AddressingMode::Absolute }),
        0xEE => Some(Instruction { mnemonic: Mnemonic::Inc, mode: AddressingMode::Absolute }),
        0xF0 => Some(Instruction { mnemonic: Mnemonic::Beq, mode: AddressingMode::Relative }),
        0xF1 => Some(Instruction { mnemonic: Mnemonic::Sbc, mode: AddressingMode::Indirect_Y }),
        0xF5 => Some(Instruction { mnemonic: Mnemonic::Sbc, mode: AddressingMode::Zeropage_X }),
        0xF6 => Some(Instruction { mnemonic: Mnemonic::Inc, mode: AddressingMode::Zeropage_X }),
        0xF8 => Some(Instruction { mnemonic: Mnemonic::Sed, mode: AddressingMode::NoneAddressinng }),
        0xF9 => Some(Instruction { mnemonic: Mnemonic::Sbc, mode: AddressingMode::Absolute_Y }),
        0xFD => Some(Instruction { mnemonic: Mnemonic::Sbc, mode: AddressingMode::Absolute_X }),
        0xFE => Some(Instruction { mnemonic: Mnemonic::Inc, mode: AddressingMode::Absolute_X }),
        _ => None,
    }
}

} // verus!
