//! Validation of raw byte sequences into digit sequences.
//!
//! Any ordered source of bytes — an array, a slice, a borrowed vector —
//! is accepted through a `&[u8]` view. Validation succeeds exactly when
//! every element is a base-10 digit; the first element of ten or more,
//! scanning left to right, is reported in
//! [`CrateError::NonDigitNumber`], widened to `u128`. The empty source
//! yields the empty sequence.

use vstd::prelude::*;

use crate::internal_create_digit_sequence;
use crate::numerals::digits_valid;
use crate::result::{CrateError, CrateResult};
use crate::DigitSequence;

verus! {

impl DigitSequence {
    /// Validates a byte view into a digit sequence, preserving order and
    /// length exactly.
    pub fn from_bytes(digits: &[u8]) -> (result: CrateResult<DigitSequence>)
        ensures
            match result {
                Ok(sequence) => digits_valid(digits@) && sequence@ == digits@,
                Err(error) => exists|i: int|
                    {
                        &&& 0 <= i < digits@.len()
                        &&& digits@[i] > 9
                        &&& (forall|j: int| 0 <= j < i ==> digits@[j] <= 9)
                        &&& error == CrateError::NonDigitNumber(digits@[i] as u128)
                    },
            },
    {
        let n = digits.len();
        let mut digits_vec: Vec<u8> = Vec::new();
        let mut i: usize = 0;
        while i < n
            invariant
                i <= n,
                n == digits@.len(),
                digits_vec@ == digits@.take(i as int),
                forall|j: int| 0 <= j < i ==> digits@[j] <= 9,
            decreases n - i,
        {
            let digit = digits[i];
            if digit >= 10 {
                return Err(CrateError::NonDigitNumber(digit as u128));
            }
            digits_vec.push(digit);
            i += 1;
            proof {
                assert(digits_vec@ =~= digits@.take(i as int));
            }
        }
        proof {
            assert(digits_vec@ =~= digits@);
        }
        Ok(internal_create_digit_sequence(digits_vec))
    }

    /// Tells whether the sequence holds exactly the given digits.
    pub fn eq_bytes(&self, other: &[u8]) -> (r: bool)
        ensures
            r <==> self@ == other@,
    {
        let n = self.len();
        if n != other.len() {
            return false;
        }
        let mut i: usize = 0;
        while i < n
            invariant
                n == self@.len(),
                n == other@.len(),
                i <= n,
                forall|j: int| 0 <= j < i ==> self@[j] == other@[j],
            decreases n - i,
        {
            if self.digit_at(i) != other[i] {
                return false;
            }
            i += 1;
        }
        proof {
            assert(self@ =~= other@);
        }
        true
    }
}

} // verus!
