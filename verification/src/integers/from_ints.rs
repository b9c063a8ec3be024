//! Decomposition of integers into digit sequences.
//!
//! Decomposing an unsigned integer always succeeds and never produces
//! leading zeros; zero decomposes into the single-digit sequence `[0]`,
//! never the empty sequence. Decomposing a signed integer fails on
//! negative values with [`CrateError::NegativeNumber`], whose payload is
//! the value widened to `i128`.

use vstd::prelude::*;

use crate::internal_create_digit_sequence;
use crate::numerals::{digits_of, lemma_digits_of_valid};
use crate::result::{CrateError, CrateResult};
use crate::DigitSequence;

verus! {

/// Appends the digits of `value`, most significant first, to `digits`.
fn push_digits(value: u128, digits: &mut Vec<u8>)
    ensures
        final(digits)@ == old(digits)@ + digits_of(value as nat),
    decreases value,
{
    if value >= 10 {
        push_digits(value / 10, digits);
    }
    digits.push((value % 10) as u8);
    proof {
        assert(digits@ =~= old(digits)@ + digits_of(value as nat));
    }
}

/// Decomposes an unsigned 128-bit value into its digit sequence.
pub fn from_u128(value: u128) -> (sequence: DigitSequence)
    ensures
        sequence@ == digits_of(value as nat),
{
    let mut digits: Vec<u8> = Vec::new();
    push_digits(value, &mut digits);
    proof {
        lemma_digits_of_valid(value as nat);
        assert(digits@ =~= digits_of(value as nat));
    }
    internal_create_digit_sequence(digits)
}

/// Decomposes an unsigned 64-bit value into its digit sequence.
pub fn from_u64(value: u64) -> (sequence: DigitSequence)
    ensures
        sequence@ == digits_of(value as nat),
{
    from_u128(value as u128)
}

/// Decomposes an unsigned 32-bit value into its digit sequence.
pub fn from_u32(value: u32) -> (sequence: DigitSequence)
    ensures
        sequence@ == digits_of(value as nat),
{
    from_u128(value as u128)
}

/// Decomposes an unsigned 16-bit value into its digit sequence.
pub fn from_u16(value: u16) -> (sequence: DigitSequence)
    ensures
        sequence@ == digits_of(value as nat),
{
    from_u128(value as u128)
}

/// Decomposes an unsigned 8-bit value into its digit sequence.
pub fn from_u8(value: u8) -> (sequence: DigitSequence)
    ensures
        sequence@ == digits_of(value as nat),
{
    from_u128(value as u128)
}

/// Decomposes a platform-width unsigned value into its digit sequence.
pub fn from_usize(value: usize) -> (sequence: DigitSequence)
    ensures
        sequence@ == digits_of(value as nat),
{
    from_u128(value as u128)
}

/// Decomposes a signed 128-bit value, rejecting negative values.
pub fn try_from_i128(value: i128) -> (result: CrateResult<DigitSequence>)
    ensures
        match result {
            Ok(sequence) => value >= 0 && sequence@ == digits_of(value as nat),
            Err(error) => value < 0 && error == CrateError::NegativeNumber(value as i128),
        },
{
    if value < 0 {
        Err(CrateError::NegativeNumber(value))
    } else {
        Ok(from_u128(value as u128))
    }
}

/// Decomposes a signed 64-bit value, rejecting negative values.
pub fn try_from_i64(value: i64) -> (result: CrateResult<DigitSequence>)
    ensures
        match result {
            Ok(sequence) => value >= 0 && sequence@ == digits_of(value as nat),
            Err(error) => value < 0 && error == CrateError::NegativeNumber(value as i128),
        },
{
    try_from_i128(value as i128)
}

/// Decomposes a signed 32-bit value, rejecting negative values.
pub fn try_from_i32(value: i32) -> (result: CrateResult<DigitSequence>)
    ensures
        match result {
            Ok(sequence) => value >= 0 && sequence@ == digits_of(value as nat),
            Err(error) => value < 0 && error == CrateError::NegativeNumber(value as i128),
        },
{
    try_from_i128(value as i128)
}

/// Decomposes a signed 16-bit value, rejecting negative values.
pub fn try_from_i16(value: i16) -> (result: CrateResult<DigitSequence>)
    ensures
        match result {
            Ok(sequence) => value >= 0 && sequence@ == digits_of(value as nat),
            Err(error) => value < 0 && error == CrateError::NegativeNumber(value as i128),
        },
{
    try_from_i128(value as i128)
}

/// Decomposes a signed 8-bit value, rejecting negative values.
pub fn try_from_i8(value: i8) -> (result: CrateResult<DigitSequence>)
    ensures
        match result {
            Ok(sequence) => value >= 0 && sequence@ == digits_of(value as nat),
            Err(error) => value < 0 && error == CrateError::NegativeNumber(value as i128),
        },
{
    try_from_i128(value as i128)
}

/// Decomposes a platform-width signed value, rejecting negative values.
pub fn try_from_isize(value: isize) -> (result: CrateResult<DigitSequence>)
    ensures
        match result {
            Ok(sequence) => value >= 0 && sequence@ == digits_of(value as nat),
            Err(error) => value < 0 && error == CrateError::NegativeNumber(value as i128),
        },
{
    try_from_i128(value as i128)
}

} // verus!
