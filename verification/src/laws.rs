//! What holds of the instructions, for every state.

use vstd::prelude::*;
use crate::addressing::{signed, AddressingMode};
use crate::decode::{decoded, encoding, Instruction, Mnemonic};
use crate::compare::{compared, difference};
use crate::flags::{
    carry_in, flag_set, lemma_bit7, lemma_with_flag, lemma_zero_negative, with_flag,
    with_zero_negative, BREAK_FLAG, CARRY_FLAG, INVALID_FLAG, NEGATIVE_FLAG, OVERFOW_FLAG,
    ZERO_FLAG,
};
use crate::shift::{asl_value, lsr_value, rol_value, ror_value};
use crate::state::{offset16, State, PROGRAM_START, RESET_VECTOR};

verus! {

/// Every instruction keeps the state well formed: memory keeps its 65,536
/// cells, and the registers stay within their 8 bits (the program counter
/// within its 16).
pub proof fn law_state_stays_well_formed(s: State, mnemonic: Mnemonic, mode: AddressingMode)
    requires
        s.wf(),
    ensures
        s.execute(mnemonic, mode).wf(),
        0 <= s.execute(mnemonic, mode).a <= 255,
        0 <= s.execute(mnemonic, mode).x <= 255,
        0 <= s.execute(mnemonic, mode).y <= 255,
        0 <= s.execute(mnemonic, mode).p <= 255,
        0 <= s.execute(mnemonic, mode).sp <= 255,
        0 <= s.execute(mnemonic, mode).pc <= 65535,
{
}

/// A step keeps the state well formed.
pub proof fn law_step_stays_well_formed(s: State)
    requires
        s.wf(),
    ensures
        s.step().wf(),
{
    match decoded(s.opcode()) {
        Some(i) => {
            law_state_stays_well_formed(s.advanced(1), i.mnemonic, i.mode);
        },
        None => {},
    }
}

impl Mnemonic {
    /// The loads, and the transfers that set flags: every transfer but TXS.
    pub open spec fn loads_or_transfers(self) -> bool {
        match self {
            Mnemonic::Lda
            | Mnemonic::Ldx
            | Mnemonic::Ldy
            | Mnemonic::Tax
            | Mnemonic::Txa
            | Mnemonic::Tay
            | Mnemonic::Tya
            | Mnemonic::Tsx => true,
            _ => false,
        }
    }

    /// The register that a load or transfer writes, read from `s`.
    pub open spec fn destination(self, s: State) -> u8
        recommends
            self.loads_or_transfers(),
    {
        match self {
            Mnemonic::Lda | Mnemonic::Txa | Mnemonic::Tya => s.a,
            Mnemonic::Ldx | Mnemonic::Tax | Mnemonic::Tsx => s.x,
            _ => s.y,
        }
    }
}

/// After a load, and after a transfer other than TXS, Zero is set exactly
/// when the destination register is 0, and Negative exactly when its bit 7
/// is set.
pub proof fn law_load_transfer_flags(s: State, mnemonic: Mnemonic, mode: AddressingMode)
    requires
        mnemonic.loads_or_transfers(),
    ensures
        flag_set(ZERO_FLAG, s.execute(mnemonic, mode).p) <==> mnemonic.destination(
            s.execute(mnemonic, mode),
        ) == 0,
        flag_set(NEGATIVE_FLAG, s.execute(mnemonic, mode).p) <==> mnemonic.destination(
            s.execute(mnemonic, mode),
        ) & 0x80 != 0,
{
    lemma_zero_negative(s.p, mnemonic.destination(s.execute(mnemonic, mode)));
}

/// TXS changes no flag.
pub proof fn law_txs_keeps_flags(s: State)
    ensures
        s.txs().p == s.p,
{
}

/// The flags as an addition leaves them: Carry and Overflow read as they
/// were written, Zero and Negative follow the result, and the four other
/// flags keep their values.
pub proof fn lemma_flags_after_add(p: u8, carry: bool, overflow: bool, result: u8)
    by (bit_vector)
    ensures
        flag_set(
            CARRY_FLAG,
            with_zero_negative(
                with_flag(with_flag(p, CARRY_FLAG, carry), OVERFOW_FLAG, overflow),
                result,
            ),
        ) == carry,
        flag_set(
            OVERFOW_FLAG,
            with_zero_negative(
                with_flag(with_flag(p, CARRY_FLAG, carry), OVERFOW_FLAG, overflow),
                result,
            ),
        ) == overflow,
        flag_set(
            ZERO_FLAG,
            with_zero_negative(
                with_flag(with_flag(p, CARRY_FLAG, carry), OVERFOW_FLAG, overflow),
                result,
            ),
        ) == (result == 0),
        flag_set(
            NEGATIVE_FLAG,
            with_zero_negative(
                with_flag(with_flag(p, CARRY_FLAG, carry), OVERFOW_FLAG, overflow),
                result,
            ),
        ) == (result & 0x80 != 0),
        with_zero_negative(
            with_flag(with_flag(p, CARRY_FLAG, carry), OVERFOW_FLAG, overflow),
            result,
        ) & 0x3c == p & 0x3c,
{
}

/// After adding `m` with carry, the accumulator holds the sum of the old
/// accumulator, `m` and the old carry, modulo 256, and Carry tells whether
/// that sum is over 255.
pub proof fn law_add_with_carry(s: State, m: u8)
    ensures
        s.add_with_carry(m).a == (s.a + m + carry_in(s.p)) % 256,
        flag_set(CARRY_FLAG, s.add_with_carry(m).p) <==> s.a + m + carry_in(s.p) > 255,
        flag_set(ZERO_FLAG, s.add_with_carry(m).p) <==> s.add_with_carry(m).a == 0,
        flag_set(NEGATIVE_FLAG, s.add_with_carry(m).p) <==> s.add_with_carry(m).a & 0x80 != 0,
{
    let sum = s.a + m + carry_in(s.p);
    let result = (sum % 256) as u8;
    lemma_flags_after_add(s.p, sum > 255, (s.a ^ result) & (m ^ result) & 0x80 != 0, result);
}

/// After ADC the accumulator holds the sum of the old accumulator, the
/// operand and the old carry, modulo 256, and Carry tells whether that sum
/// is over 255.
pub proof fn law_adc(s: State, mode: AddressingMode)
    ensures
        s.adc(mode).a == (s.a + s.operand(mode) + carry_in(s.p)) % 256,
        flag_set(CARRY_FLAG, s.adc(mode).p) <==> s.a + s.operand(mode) + carry_in(s.p) > 255,
{
    law_add_with_carry(s, s.operand(mode));
}

/// The one's complement of a byte is 255 minus the byte.
pub proof fn lemma_complement(m: u8)
    ensures
        !m == 255 - m,
{
    assert(!m == 255 - m) by (bit_vector);
}

/// After SBC the accumulator holds the sum of the old accumulator, the
/// one's complement of the operand and the old carry, modulo 256: the
/// accumulator minus the operand, minus one more if Carry was clear. Carry
/// then tells that no borrow was needed.
pub proof fn law_sbc(s: State, mode: AddressingMode)
    ensures
        s.sbc(mode).a == (s.a + (255 - s.operand(mode)) + carry_in(s.p)) % 256,
        s.sbc(mode).a == (s.a - s.operand(mode) - (1 - carry_in(s.p))) % 256,
        flag_set(CARRY_FLAG, s.sbc(mode).p) <==> s.a >= s.operand(mode) + (1 - carry_in(s.p)),
{
    lemma_complement(s.operand(mode));
    law_add_with_carry(s, !s.operand(mode));
}

/// Overflow after an addition tells that the sum of the operands as signed
/// numbers, with the carry, does not fit in a signed byte.
pub proof fn law_add_overflow(s: State, m: u8)
    ensures
        flag_set(OVERFOW_FLAG, s.add_with_carry(m).p) <==> !(-128 <= signed(s.a) + signed(m)
            + carry_in(s.p) <= 127),
{
    let c = carry_in(s.p);
    let sum = s.a + m + c;
    let result = (sum % 256) as u8;
    let a = s.a;
    lemma_flags_after_add(s.p, sum > 255, (a ^ result) & (m ^ result) & 0x80 != 0, result);
    assert(((a ^ result) & (m ^ result) & 0x80 != 0) <==> ((a >= 0x80) == (m >= 0x80) && (result
        >= 0x80) != (a >= 0x80))) by (bit_vector);
}

/// Overflow after SBC tells that the accumulator minus the operand, as
/// signed numbers, minus one more if Carry was clear, does not fit in a
/// signed byte.
pub proof fn law_sbc_overflow(s: State, mode: AddressingMode)
    ensures
        flag_set(OVERFOW_FLAG, s.sbc(mode).p) <==> !(-128 <= signed(s.a) - signed(s.operand(mode))
            - (1 - carry_in(s.p)) <= 127),
{
    lemma_complement(s.operand(mode));
    law_add_overflow(s, !s.operand(mode));
}

/// Rotating left and then right, with the carry clear both times, gives
/// the byte back where its bit 7 was clear; rotating right and then left
/// does where its bit 0 was clear.
pub proof fn law_rotate_round_trip(x: u8)
    ensures
        x < 0x80 ==> ror_value(rol_value(x, false), false) == x,
        x % 2 == 0 ==> rol_value(ror_value(x, false), false) == x,
{
}

/// A rotation undoes the rotation the other way when it is given the carry
/// that the first one left: the bit that went out comes back in.
pub proof fn law_rotate_inverse(x: u8, carry: bool)
    ensures
        ror_value(rol_value(x, carry), x >= 0x80) == x,
        rol_value(x, carry) % 2 == 1 <==> carry,
        rol_value(ror_value(x, carry), x % 2 == 1) == x,
        ror_value(x, carry) >= 0x80 <==> carry,
{
}

/// The shifts and rotates in terms of bits: a shift left is `<< 1` within
/// the byte and a shift right is `>> 1`; a rotate left puts the carry into
/// bit 0 and a rotate right puts it into bit 7.
pub proof fn law_shift_values_as_bits(v: u8)
    ensures
        asl_value(v) == v << 1,
        lsr_value(v) == v >> 1,
        rol_value(v, false) == v << 1,
        rol_value(v, true) == (v << 1) | 0x01,
        ror_value(v, false) == v >> 1,
        ror_value(v, true) == (v >> 1) | 0x80,
{
    assert(v << 1 == (2 * v) % 256) by (bit_vector);
    assert(v >> 1 == v / 2) by (bit_vector);
    assert((v << 1) | 0x01 == (2 * v) % 256 + 1) by (bit_vector);
    assert((v >> 1) | 0x80 == v / 2 + 128) by (bit_vector);
}

/// After ASL and ROL Carry holds bit 7 of the byte that was shifted; after
/// LSR and ROR it holds bit 0.
pub proof fn law_shift_carry(s: State, mode: AddressingMode)
    ensures
        flag_set(CARRY_FLAG, s.asl(mode).p) <==> s.target(mode) & 0x80 != 0,
        flag_set(CARRY_FLAG, s.rol(mode).p) <==> s.target(mode) & 0x80 != 0,
        flag_set(CARRY_FLAG, s.lsr(mode).p) <==> s.target(mode) & 0x01 != 0,
        flag_set(CARRY_FLAG, s.ror(mode).p) <==> s.target(mode) & 0x01 != 0,
        !flag_set(NEGATIVE_FLAG, s.lsr(mode).p),
{
    let v = s.target(mode);
    let carry = s.p & CARRY_FLAG != 0;
    lemma_carry_after_shift(s.p, v >= 0x80, asl_value(v));
    lemma_carry_after_shift(s.p, v >= 0x80, rol_value(v, carry));
    lemma_carry_after_shift(s.p, v % 2 == 1, lsr_value(v));
    lemma_carry_after_shift(s.p, v % 2 == 1, ror_value(v, carry));
    lemma_zero_negative(with_flag(s.p, CARRY_FLAG, v % 2 == 1), lsr_value(v));
    let half = lsr_value(v);
    lemma_bit7(v);
    lemma_bit7(half);
    assert(v & 0x01 != 0 <==> v % 2 == 1) by (bit_vector);
}

/// The flags as a shift or rotate leaves them: Carry reads as written.
pub proof fn lemma_carry_after_shift(p: u8, carry: bool, result: u8)
    by (bit_vector)
    ensures
        flag_set(CARRY_FLAG, with_zero_negative(with_flag(p, CARRY_FLAG, carry), result)) == carry,
{
}

/// ROL and then ROR on the accumulator restore the accumulator and Carry.
pub proof fn law_rol_ror_accumulator(s: State)
    ensures
        s.rol(AddressingMode::Accumulator).ror(AddressingMode::Accumulator).a == s.a,
        flag_set(
            CARRY_FLAG,
            s.rol(AddressingMode::Accumulator).ror(AddressingMode::Accumulator).p,
        ) == flag_set(CARRY_FLAG, s.p),
{
    let acc = AddressingMode::Accumulator;
    let carry = s.p & CARRY_FLAG != 0;
    let t = s.rol(acc);
    lemma_carry_after_shift(s.p, s.a >= 0x80, rol_value(s.a, carry));
    law_rotate_inverse(s.a, carry);
    lemma_carry_after_shift(t.p, t.a % 2 == 1, ror_value(t.a, s.a >= 0x80));
}

/// PHA and then PLA restore the accumulator and the stack pointer.
pub proof fn law_pha_pla(s: State)
    requires
        s.wf(),
    ensures
        s.pha().pla().a == s.a,
        s.pha().pla().sp == s.sp,
        s.pha().pla().x == s.x,
        s.pha().pla().y == s.y,
        s.pha().pla().pc == s.pc,
{
}

/// After PLP the six flags other than Break and bit 5 are those of the byte
/// pulled, Break is as it was before, and bit 5 is set. The stack pointer
/// has moved up by one.
pub proof fn law_plp_flags(s: State)
    ensures
        s.plp().p == (s.pulled().top() & 0xcf) | (s.p & 0x10) | 0x20,
        s.plp().p & 0xcf == s.pulled().top() & 0xcf,
        flag_set(BREAK_FLAG, s.plp().p) == flag_set(BREAK_FLAG, s.p),
        flag_set(INVALID_FLAG, s.plp().p),
        s.plp().sp == (s.sp + 1) % 256,
{
    let f = s.pulled().top();
    let p = s.p;
    assert({
        let q = (f & !(0x10u8 | 0x20u8)) | (p & 0x10) | 0x20;
        &&& q == (f & 0xcf) | (p & 0x10) | 0x20
        &&& q & 0xcf == f & 0xcf
        &&& (q & 0x10 != 0) == (p & 0x10 != 0)
        &&& q & 0x20 != 0
    }) by (bit_vector);
}

/// PHP and then PLP restore the stack pointer and every flag; bit 5 comes
/// back set.
pub proof fn law_php_plp(s: State)
    requires
        s.wf(),
    ensures
        s.php().plp().sp == s.sp,
        s.php().plp().p == s.p | 0x20,
{
    let p = s.p;
    assert(((p | 0x10 | 0x20) & !(0x10u8 | 0x20u8)) | (p & 0x10) | 0x20 == p | 0x20)
        by (bit_vector);
}

/// JSR and then RTS come back to the instruction after the JSR: two bytes
/// past the first operand byte, where the program counter was when JSR ran.
/// The stack pointer is restored.
pub proof fn law_jsr_rts(s: State)
    requires
        s.wf(),
    ensures
        s.jsr().rts().pc == offset16(s.pc, 2),
        s.jsr().rts().sp == s.sp,
{
}

/// RTS comes back to the instruction after a JSR whatever ran in between,
/// as long as the stack pointer and the two bytes that JSR pushed are as
/// JSR left them.
pub proof fn law_subroutine_returns(s: State, t: State)
    requires
        s.wf(),
        t.wf(),
        t.sp == s.jsr().sp,
        t.pulled().top() == s.jsr().pulled().top(),
        t.pulled().pulled().top() == s.jsr().pulled().pulled().top(),
    ensures
        t.rts().pc == offset16(s.pc, 2),
        t.rts().sp == s.sp,
{
    law_jsr_rts(s);
}

/// Decoding and encoding are inverse to each other: an opcode stands for
/// an instruction exactly when the instruction is encoded as that opcode.
/// So no two opcodes stand for the same instruction, and no instruction has
/// two opcodes.
pub proof fn law_decode_inverts_encoding(mnemonic: Mnemonic, mode: AddressingMode, opcode: u8)
    ensures
        encoding(mnemonic, mode) == Some(opcode) <==> decoded(opcode) == Some(
            Instruction { mnemonic, mode },
        ),
{
}

/// An instruction that sets or clears a flag leaves that flag as asked and
/// every bit outside it as it was; registers, program counter and memory do
/// not change.
pub proof fn law_status_flag(s: State, flag: u8, other: u8, on: bool)
    requires
        flag != 0,
        other & flag == 0,
    ensures
        flag_set(flag, s.with_status(flag, on).p) == on,
        s.with_status(flag, on).p & other == s.p & other,
        s.with_status(flag, on) == (State { p: s.with_status(flag, on).p, ..s }),
{
    lemma_with_flag(s.p, flag, other, on);
}

/// Every status byte on the stack has bit 5 set: PHP and BRK push it so,
/// together with Break.
pub proof fn law_pushed_status_has_bit_five(s: State)
    requires
        s.wf(),
    ensures
        flag_set(INVALID_FLAG, s.php().pulled().top()),
        flag_set(BREAK_FLAG, s.php().pulled().top()),
        flag_set(INVALID_FLAG, s.brk().pulled().top()),
        flag_set(BREAK_FLAG, s.brk().pulled().top()),
{
    let p = s.p;
    assert((p | 0x10 | 0x20) & 0x20 != 0) by (bit_vector);
    assert((p | 0x10 | 0x20) & 0x10 != 0) by (bit_vector);
}

/// After a comparison Zero tells that the register equals the operand,
/// Carry that it is at least the operand, and Negative gives bit 7 of the
/// difference modulo 256. The other flags keep their values.
pub proof fn law_compare_flags(p: u8, register: u8, m: u8)
    ensures
        flag_set(ZERO_FLAG, compared(p, register, m)) <==> register == m,
        flag_set(CARRY_FLAG, compared(p, register, m)) <==> register >= m,
        flag_set(NEGATIVE_FLAG, compared(p, register, m)) <==> difference(register, m) >= 0x80,
        compared(p, register, m) & 0x7c == p & 0x7c,
{
    lemma_flags_after_compare(p, register >= m, register == m, difference(register, m) >= 0x80);
}

/// The flags as a comparison leaves them.
pub proof fn lemma_flags_after_compare(p: u8, carry: bool, zero: bool, negative: bool)
    by (bit_vector)
    ensures
        flag_set(
            CARRY_FLAG,
            with_flag(with_flag(with_flag(p, CARRY_FLAG, carry), ZERO_FLAG, zero), NEGATIVE_FLAG, negative),
        ) == carry,
        flag_set(
            ZERO_FLAG,
            with_flag(with_flag(with_flag(p, CARRY_FLAG, carry), ZERO_FLAG, zero), NEGATIVE_FLAG, negative),
        ) == zero,
        flag_set(
            NEGATIVE_FLAG,
            with_flag(with_flag(with_flag(p, CARRY_FLAG, carry), ZERO_FLAG, zero), NEGATIVE_FLAG, negative),
        ) == negative,
        with_flag(with_flag(with_flag(p, CARRY_FLAG, carry), ZERO_FLAG, zero), NEGATIVE_FLAG, negative)
            & 0x7c == p & 0x7c,
{
}

/// After BIT Zero tells that the accumulator and the operand share no bit,
/// Overflow is bit 6 of the operand and Negative its bit 7; the five other
/// flags and the accumulator keep their values.
pub proof fn law_bit_flags(s: State, mode: AddressingMode)
    ensures
        flag_set(ZERO_FLAG, s.bit(mode).p) <==> s.a & s.operand(mode) == 0,
        flag_set(OVERFOW_FLAG, s.bit(mode).p) <==> s.operand(mode) & 0x40 != 0,
        flag_set(NEGATIVE_FLAG, s.bit(mode).p) <==> s.operand(mode) & 0x80 != 0,
        s.bit(mode).p & 0x3d == s.p & 0x3d,
        s.bit(mode).a == s.a,
{
    let m = s.operand(mode);
    let a = s.a;
    let p = s.p;
    assert({
        let q = with_flag(
            with_flag(with_flag(p, ZERO_FLAG, a & m == 0), OVERFOW_FLAG, m & 0x40 != 0),
            NEGATIVE_FLAG,
            m >= 0x80,
        );
        &&& (q & ZERO_FLAG != 0 <==> a & m == 0)
        &&& (q & OVERFOW_FLAG != 0 <==> m & 0x40 != 0)
        &&& (q & NEGATIVE_FLAG != 0 <==> m & 0x80 != 0)
        &&& q & 0x3d == p & 0x3d
    }) by (bit_vector);
}

impl Mnemonic {
    /// The instructions that change no flag: the stores, the branches, JMP,
    /// JSR, RTS, TXS, PHA, PHP and NOP.
    pub open spec fn keeps_flags(self) -> bool {
        match self {
            Mnemonic::Sta
            | Mnemonic::Stx
            | Mnemonic::Sty
            | Mnemonic::Bcc
            | Mnemonic::Bcs
            | Mnemonic::Beq
            | Mnemonic::Bmi
            | Mnemonic::Bne
            | Mnemonic::Bpl
            | Mnemonic::Bvc
            | Mnemonic::Bvs
            | Mnemonic::Jmp
            | Mnemonic::Jsr
            | Mnemonic::Rts
            | Mnemonic::Txs
            | Mnemonic::Pha
            | Mnemonic::Php
            | Mnemonic::Nop => true,
            _ => false,
        }
    }

    /// The instructions that can write to memory: the stores, INC and DEC,
    /// the shifts and rotates, and those that push: PHA, PHP, JSR and BRK.
    pub open spec fn writes_memory(self) -> bool {
        match self {
            Mnemonic::Sta
            | Mnemonic::Stx
            | Mnemonic::Sty
            | Mnemonic::Inc
            | Mnemonic::Dec
            | Mnemonic::Asl
            | Mnemonic::Lsr
            | Mnemonic::Rol
            | Mnemonic::Ror
            | Mnemonic::Pha
            | Mnemonic::Php
            | Mnemonic::Jsr
            | Mnemonic::Brk => true,
            _ => false,
        }
    }
}

/// Stores, branches, jumps, subroutine calls and returns, TXS, the pushes
/// and NOP change no flag.
pub proof fn law_flags_kept(s: State, mnemonic: Mnemonic, mode: AddressingMode)
    requires
        mnemonic.keeps_flags(),
    ensures
        s.execute(mnemonic, mode).p == s.p,
{
}

/// Only stores, INC, DEC, shifts, rotates and pushes write to memory; a
/// shift or rotate of the accumulator does not either. In particular a
/// comparison writes neither a register nor memory.
pub proof fn law_memory_kept(s: State, mnemonic: Mnemonic, mode: AddressingMode)
    ensures
        !mnemonic.writes_memory() ==> s.execute(mnemonic, mode).mem == s.mem,
        mode == AddressingMode::Accumulator && (mnemonic == Mnemonic::Asl || mnemonic
            == Mnemonic::Lsr || mnemonic == Mnemonic::Rol || mnemonic == Mnemonic::Ror)
            ==> s.execute(mnemonic, mode).mem == s.mem,
        mnemonic == Mnemonic::Cmp || mnemonic == Mnemonic::Cpx || mnemonic == Mnemonic::Cpy ==> {
            &&& s.execute(mnemonic, mode).a == s.a
            &&& s.execute(mnemonic, mode).x == s.x
            &&& s.execute(mnemonic, mode).y == s.y
            &&& s.execute(mnemonic, mode).sp == s.sp
            &&& s.execute(mnemonic, mode).pc == s.pc
        },
{
}

/// After a program is loaded and the machine reset, the program counter is
/// at the start of the program, the registers are cleared, and each byte of
/// the program that lies below the reset vector is in its place.
pub proof fn law_load_reset(s: State, program: Seq<u8>, i: int)
    requires
        s.wf(),
        0 <= i < program.len(),
        PROGRAM_START + i < RESET_VECTOR,
    ensures
        s.loaded(program).reset().pc == PROGRAM_START,
        s.loaded(program).reset().read((PROGRAM_START + i) as u16) == program[i],
        s.loaded(program).reset().a == 0,
        s.loaded(program).reset().x == 0,
        s.loaded(program).reset().y == 0,
        s.loaded(program).reset().p == 0,
        s.loaded(program).reset().sp == 0xff,
        s.loaded(program).reset().wf(),
{
}

} // verus!
