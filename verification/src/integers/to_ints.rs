//! Reconstruction of integers from digit sequences.
//!
//! A digit sequence is read as a base-10 numeral, most-significant digit
//! first. Reconstruction to a given unsigned width succeeds exactly when
//! the place value of the leading digit and the numeric value both fit in
//! that width; otherwise it fails with [`CrateError::Overflow`]. Leading
//! zeros do not change the numeric value, but they widen the leading
//! place value and can therefore overflow a narrow width on their own.
//! The empty sequence reconstructs to zero.

use vstd::prelude::*;

use crate::numerals::{
    lemma_pow10_monotone, lemma_seq_value_prefix_le, pow10, reconstruct_ok, seq_value,
};
use crate::result::{CrateError, CrateResult};
use crate::DigitSequence;

verus! {

impl DigitSequence {
    /// Reconstructs the numeral as a `u128` bounded by `max`.
    fn reconstruct_bounded(&self, max: u128) -> (result: CrateResult<u128>)
        requires
            max >= 1,
        ensures
            match result {
                Ok(value) => reconstruct_ok(self@, max as nat) && value == seq_value(self@),
                Err(error) => error == CrateError::Overflow && !reconstruct_ok(
                    self@,
                    max as nat,
                ),
            },
    {
        let n = self.len();
        if n == 0 {
            return Ok(0);
        }
        // The place value of the leading digit must fit under the bound.
        let mut power: u128 = 1;
        let mut k: usize = 1;
        while k < n
            invariant
                1 <= k <= n,
                n == self@.len(),
                power == pow10((k - 1) as nat),
                power <= max,
            decreases n - k,
        {
            let next = match power.checked_mul(10) {
                Some(p) => p,
                None => {
                    proof {
                        lemma_pow10_monotone(k as nat, (n - 1) as nat);
                    }
                    return Err(CrateError::Overflow);
                },
            };
            if next > max {
                proof {
                    lemma_pow10_monotone(k as nat, (n - 1) as nat);
                }
                return Err(CrateError::Overflow);
            }
            power = next;
            k += 1;
        }
        // Accumulate the value, most-significant digit first.
        let mut acc: u128 = 0;
        let mut i: usize = 0;
        while i < n
            invariant
                i <= n,
                n == self@.len(),
                pow10((n - 1) as nat) <= max,
                acc == seq_value(self@.take(i as int)),
                acc <= max,
            decreases n - i,
        {
            let d = self.digit_at(i);
            proof {
                assert(self@.take(i + 1).drop_last() =~= self@.take(i as int));
                assert(self@.take(i + 1).last() == self@[i as int]);
                lemma_seq_value_prefix_le(self@, i + 1);
            }
            let scaled = match acc.checked_mul(10) {
                Some(v) => v,
                None => {
                    return Err(CrateError::Overflow);
                },
            };
            let sum = match scaled.checked_add(d as u128) {
                Some(v) => v,
                None => {
                    return Err(CrateError::Overflow);
                },
            };
            if sum > max {
                return Err(CrateError::Overflow);
            }
            acc = sum;
            i += 1;
        }
        proof {
            assert(self@.take(n as int) =~= self@);
        }
        Ok(acc)
    }

    /// Reconstructs the numeral as a `u128`, failing with `Overflow` when
    /// it does not fit.
    pub fn to_u128(&self) -> (result: CrateResult<u128>)
        ensures
            match result {
                Ok(value) => reconstruct_ok(self@, u128::MAX as nat) && value == seq_value(
                    self@,
                ),
                Err(error) => error == CrateError::Overflow && !reconstruct_ok(
                    self@,
                    u128::MAX as nat,
                ),
            },
    {
        self.reconstruct_bounded(u128::MAX)
    }

    /// Reconstructs the numeral as a `u64`, failing with `Overflow` when
    /// it does not fit.
    pub fn to_u64(&self) -> (result: CrateResult<u64>)
        ensures
            match result {
                Ok(value) => reconstruct_ok(self@, u64::MAX as nat) && value == seq_value(
                    self@,
                ),
                Err(error) => error == CrateError::Overflow && !reconstruct_ok(
                    self@,
                    u64::MAX as nat,
                ),
            },
    {
        match self.reconstruct_bounded(u64::MAX as u128) {
            Ok(value) => Ok(value as u64),
            Err(error) => Err(error),
        }
    }

    /// Reconstructs the numeral as a `u32`, failing with `Overflow` when
    /// it does not fit.
    pub fn to_u32(&self) -> (result: CrateResult<u32>)
        ensures
            match result {
                Ok(value) => reconstruct_ok(self@, u32::MAX as nat) && value == seq_value(
                    self@,
                ),
                Err(error) => error == CrateError::Overflow && !reconstruct_ok(
                    self@,
                    u32::MAX as nat,
                ),
            },
    {
        match self.reconstruct_bounded(u32::MAX as u128) {
            Ok(value) => Ok(value as u32),
            Err(error) => Err(error),
        }
    }

    /// Reconstructs the numeral as a `u16`, failing with `Overflow` when
    /// it does not fit.
    pub fn to_u16(&self) -> (result: CrateResult<u16>)
        ensures
            match result {
                Ok(value) => reconstruct_ok(self@, u16::MAX as nat) && value == seq_value(
                    self@,
                ),
                Err(error) => error == CrateError::Overflow && !reconstruct_ok(
                    self@,
                    u16::MAX as nat,
                ),
            },
    {
        match self.reconstruct_bounded(u16::MAX as u128) {
            Ok(value) => Ok(value as u16),
            Err(error) => Err(error),
        }
    }

    /// Reconstructs the numeral as a `u8`, failing with `Overflow` when
    /// it does not fit.
    pub fn to_u8(&self) -> (result: CrateResult<u8>)
        ensures
            match result {
                Ok(value) => reconstruct_ok(self@, u8::MAX as nat) && value == seq_value(
                    self@,
                ),
                Err(error) => error == CrateError::Overflow && !reconstruct_ok(
                    self@,
                    u8::MAX as nat,
                ),
            },
    {
        match self.reconstruct_bounded(u8::MAX as u128) {
            Ok(value) => Ok(value as u8),
            Err(error) => Err(error),
        }
    }

    /// Reconstructs the numeral as a `usize`, failing with `Overflow`
    /// when it does not fit.
    pub fn to_usize(&self) -> (result: CrateResult<usize>)
        ensures
            match result {
                Ok(value) => reconstruct_ok(self@, usize::MAX as nat) && value == seq_value(
                    self@,
                ),
                Err(error) => error == CrateError::Overflow && !reconstruct_ok(
                    self@,
                    usize::MAX as nat,
                ),
            },
    {
        match self.reconstruct_bounded(usize::MAX as u128) {
            Ok(value) => Ok(value as usize),
            Err(error) => Err(error),
        }
    }
}

} // verus!
