//! The processor status byte and its named flag bits.
//!
//! The status byte holds eight flags at fixed positions. Contracts speak of
//! it through [`flag_set`], which reads a flag, and [`with_flag`], which
//! writes one and leaves the others alone.

use vstd::prelude::*;

verus! {

/// Carry: bit 0.
pub const CARRY_FLAG: u8 = 0b0000_0001;

/// Zero: bit 1.
pub const ZERO_FLAG: u8 = 0b0000_0010;

/// Interrupt disable: bit 2.
pub const INTERRUPT_FLAG: u8 = 0b0000_0100;

/// Decimal mode: bit 3. It can be set and read, and changes no arithmetic.
pub const DECIMAL_FLAG: u8 = 0b0000_1000;

/// Break: bit 4.
pub const BREAK_FLAG: u8 = 0b0001_0000;

/// The unused bit 5, which reads as 1 in every status byte on the stack.
pub const INVALID_FLAG: u8 = 0b0010_0000;

/// Overflow: bit 6.
pub const OVERFOW_FLAG: u8 = 0b0100_0000;

/// Negative: bit 7.
pub const NEGATIVE_FLAG: u8 = 0b1000_0000;

/// Whether `x` has a bit of `flag` set.
pub open spec fn flag_set(flag: u8, x: u8) -> bool {
    x & flag != 0
}

/// The status byte `p` with `flag` set if `on`, cleared otherwise.
pub open spec fn with_flag(p: u8, flag: u8, on: bool) -> u8 {
    if on {
        p | flag
    } else {
        p & !flag
    }
}

/// The status byte `p` after a result `value`: Zero tells whether the value
/// is 0, Negative whether it is 128 or more (its bit 7).
pub open spec fn with_zero_negative(p: u8, value: u8) -> u8 {
    with_flag(with_flag(p, ZERO_FLAG, value == 0), NEGATIVE_FLAG, value >= 0x80)
}

/// The carry flag of `p` as a number, 0 or 1.
pub open spec fn carry_in(p: u8) -> int {
    if flag_set(CARRY_FLAG, p) {
        1
    } else {
        0
    }
}

/// Whether `x` has a bit of `flag` set.
#[verifier::when_used_as_spec(flag_set)]
pub fn is_flag_set(flag: u8, x: u8) -> (set: bool)
    ensures
        set == flag_set(flag, x),
{
    x & flag > 0
}

/// `with_flag` as executable code.
pub fn put_flag(p: u8, flag: u8, on: bool) -> (q: u8)
    ensures
        q == with_flag(p, flag, on),
{
    if on {
        p | flag
    } else {
        p & !flag
    }
}

/// A flag that was written reads back as written, and writing one flag does
/// not disturb the bits outside it.
pub proof fn lemma_with_flag(p: u8, flag: u8, other: u8, on: bool)
    ensures
        flag != 0 ==> flag_set(flag, with_flag(p, flag, on)) == on,
        other & flag == 0 ==> with_flag(p, flag, on) & other == p & other,
{
    assert((p | flag) & flag == flag) by (bit_vector);
    assert((p & !flag) & flag == 0) by (bit_vector);
    assert(other & flag == 0 ==> (p | flag) & other == p & other) by (bit_vector);
    assert(other & flag == 0 ==> (p & !flag) & other == p & other) by (bit_vector);
}

/// After `with_zero_negative`, Zero is set exactly when the value is 0 and
/// Negative exactly when bit 7 of the value is set; the six other flags keep
/// their values.
pub proof fn lemma_zero_negative(p: u8, value: u8)
    by (bit_vector)
    ensures
        flag_set(ZERO_FLAG, with_zero_negative(p, value)) <==> value == 0,
        flag_set(NEGATIVE_FLAG, with_zero_negative(p, value)) <==> value & 0x80 != 0,
        with_zero_negative(p, value) & 0x7d == p & 0x7d,
{
}

/// Bit 7 of a byte is set exactly when the byte is 128 or more.
pub proof fn lemma_bit7(value: u8)
    ensures
        value & 0x80 != 0 <==> value >= 0x80,
{
    assert(value & 0x80 != 0 <==> value >= 0x80) by (bit_vector);
}

} // verus!
