//! The closed set of errors that conversions can raise.

use vstd::prelude::*;

verus! {

/// Error raised by the fallible conversions of this crate.
#[derive(Debug, Clone, Copy, PartialEq, Eq, Hash, Structural)]
pub enum CrateError {
    /// A character does not represent a 0-9 digit.
    NonDigitChar(char),
    /// A number does not represent a 0-9 digit.
    NonDigitNumber(u128),
    /// A negative number cannot be decomposed into digits.
    NegativeNumber(i128),
    /// An operation caused a numeric overflow.
    Overflow,
}

/// Result based on this crate's [`CrateError`].
pub type CrateResult<T> = Result<T, CrateError>;

} // verus!
