//! An immutable sequence of base-10 digits, with verified conversions
//! from and to unsigned and signed integers, byte sequences and text,
//! and lexicographic equality and ordering.

pub mod integers;
pub mod numerals;
pub mod ordering;
pub mod result;
pub mod slices;
pub mod strings;

use vstd::prelude::*;

use vstd::std_specs::iter::IteratorSpec;

use crate::numerals::digits_valid;

pub use crate::result::{CrateError, CrateResult};

verus! {

/// Immutable sequence of `u8` digits, each in the range `0..=9`.
///
/// Leading zeros are permitted and preserved, and the empty sequence is a
/// valid value distinct from the single-digit sequence `[0]`. The view of
/// a `DigitSequence` is the sequence of its digits, most significant
/// first.
#[derive(Debug, Eq, Hash)]
pub struct DigitSequence {
    digits: Vec<u8>,
}

impl Clone for DigitSequence {
    /// The clone holds the same digits.
    fn clone(&self) -> (cloned: DigitSequence)
        ensures
            cloned@ == self@,
    {
        proof {
            use_type_invariant(&*self);
        }
        DigitSequence { digits: self.to_vec() }
    }
}

impl View for DigitSequence {
    type V = Seq<u8>;

    closed spec fn view(&self) -> Seq<u8> {
        self.digits@
    }
}

impl DigitSequence {
    #[verifier::type_invariant]
    spec fn wf(&self) -> bool {
        digits_valid(self.digits@)
    }

    /// Creates an empty sequence.
    pub fn new() -> (sequence: DigitSequence)
        ensures
            sequence@ == Seq::<u8>::empty(),
    {
        DigitSequence { digits: Vec::new() }
    }

    /// The number of digits held.
    pub fn len(&self) -> (n: usize)
        ensures
            n == self@.len(),
    {
        self.digits.len()
    }

    /// Tells whether the sequence is empty.
    pub fn is_empty(&self) -> (empty: bool)
        ensures
            empty <==> self@.len() == 0,
    {
        self.digits.len() == 0
    }

    /// The digit at position `i`, counting from the most significant.
    pub fn digit_at(&self, i: usize) -> (d: u8)
        requires
            i < self@.len(),
        ensures
            d == self@[i as int],
            d <= 9,
    {
        proof {
            use_type_invariant(&*self);
        }
        self.digits[i]
    }

    /// Repeatable iteration over references to the digits.
    pub fn iter(&self) -> (it: std::slice::Iter<'_, u8>)
        ensures
            it.remaining() == self@.as_ref(),
    {
        self.digits.as_slice().iter()
    }

    /// Consumes the sequence and hands its digits over, most significant
    /// first; the sequence cannot be used again afterwards.
    pub fn into_digits(self) -> (digits: Vec<u8>)
        ensures
            digits@ == self@,
    {
        let DigitSequence { digits } = self;
        digits
    }

    /// The digits as a fresh vector, most significant first.
    pub fn to_vec(&self) -> (digits: Vec<u8>)
        ensures
            digits@ == self@,
    {
        let mut out: Vec<u8> = Vec::new();
        let mut i: usize = 0;
        while i < self.digits.len()
            invariant
                i <= self.digits@.len(),
                out@ == self.digits@.take(i as int),
            decreases self.digits@.len() - i,
        {
            out.push(self.digits[i]);
            i += 1;
            proof {
                assert(out@ =~= self.digits@.take(i as int));
            }
        }
        proof {
            assert(out@ =~= self.digits@);
        }
        out
    }
}

impl Default for DigitSequence {
    /// The default value is the empty sequence.
    fn default() -> (sequence: DigitSequence)
        ensures
            sequence@ == Seq::<u8>::empty(),
    {
        DigitSequence::new()
    }
}

/// Builds a sequence directly from a vector of digits; every element must
/// already be a valid base-10 digit.
pub fn internal_create_digit_sequence(digits: Vec<u8>) -> (sequence: DigitSequence)
    requires
        digits_valid(digits@),
    ensures
        sequence@ == digits@,
{
    DigitSequence { digits }
}

} // verus!
