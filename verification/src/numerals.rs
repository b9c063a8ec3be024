//! The mathematical model of base-10 numerals: what a digit sequence is
//! worth as a number, which digit sequence a number decomposes into, and
//! when a numeral fits under a given bound.

use vstd::prelude::*;

verus! {

/// Every element of `s` is a base-10 digit.
pub open spec fn digits_valid(s: Seq<u8>) -> bool {
    forall|i: int| 0 <= i < s.len() ==> s[i] <= 9
}

/// Ten to the power `e`.
pub open spec fn pow10(e: nat) -> nat
    decreases e,
{
    if e == 0 {
        1
    } else {
        10 * pow10((e - 1) as nat)
    }
}

/// The numeric value of a digit sequence read as a base-10 numeral,
/// most-significant digit first.
pub open spec fn seq_value(s: Seq<u8>) -> nat
    decreases s.len(),
{
    if s.len() == 0 {
        0
    } else {
        (seq_value(s.drop_last()) * 10 + s.last()) as nat
    }
}

/// The digit sequence of a non-negative number: most-significant digit
/// first, no leading zeros, and a single `0` digit for zero itself.
pub open spec fn digits_of(n: nat) -> Seq<u8>
    decreases n,
{
    if n < 10 {
        seq![n as u8]
    } else {
        digits_of(n / 10).push((n % 10) as u8)
    }
}

/// A numeral can be reconstructed as an integer bounded by `max`: the
/// sequence is empty, or both the place value of its leading digit and its
/// numeric value stay within the bound.
pub open spec fn reconstruct_ok(s: Seq<u8>, max: nat) -> bool {
    s.len() == 0 || (pow10((s.len() - 1) as nat) <= max && seq_value(s) <= max)
}

pub proof fn lemma_pow10_monotone(a: nat, b: nat)
    requires
        a <= b,
    ensures
        pow10(a) <= pow10(b),
    decreases b,
{
    if a < b {
        lemma_pow10_monotone(a, (b - 1) as nat);
    }
}

/// Appending one digit multiplies the value by ten and adds the digit.
pub proof fn lemma_seq_value_push(s: Seq<u8>, d: u8)
    ensures
        seq_value(s.push(d)) == seq_value(s) * 10 + d,
{
    assert(s.push(d).drop_last() =~= s);
    assert(s.push(d).last() == d);
}

/// The value of a prefix never exceeds the value of the whole sequence.
pub proof fn lemma_seq_value_prefix_le(s: Seq<u8>, j: int)
    requires
        0 <= j <= s.len(),
    ensures
        seq_value(s.take(j)) <= seq_value(s),
    decreases s.len() - j,
{
    if j < s.len() {
        lemma_seq_value_prefix_le(s, j + 1);
        assert(s.take(j + 1).drop_last() =~= s.take(j));
        assert(seq_value(s.take(j + 1)) == seq_value(s.take(j)) * 10 + s[j]);
    } else {
        assert(s.take(j) =~= s);
    }
}

/// Reconstruction inverts decomposition: the digits of `n` are worth `n`.
pub proof fn lemma_digits_of_value(n: nat)
    ensures
        seq_value(digits_of(n)) == n,
    decreases n,
{
    if n < 10 {
        let s = seq![n as u8];
        assert(s.len() == 1);
        assert(s.last() == n as u8);
        assert(s.drop_last() =~= Seq::<u8>::empty());
        assert(seq_value(s.drop_last()) == 0);
        assert(seq_value(s) == n);
    } else {
        lemma_digits_of_value(n / 10);
        lemma_seq_value_push(digits_of(n / 10), (n % 10) as u8);
    }
}

pub proof fn lemma_digits_of_valid(n: nat)
    ensures
        digits_valid(digits_of(n)),
        digits_of(n).len() >= 1,
    decreases n,
{
    if n >= 10 {
        lemma_digits_of_valid(n / 10);
    }
}

/// Decomposition never produces a leading zero, except for the single
/// digit of zero itself.
pub proof fn lemma_digits_of_no_leading_zero(n: nat)
    requires
        n >= 1,
    ensures
        digits_of(n).len() >= 1,
        digits_of(n)[0] >= 1,
    decreases n,
{
    lemma_digits_of_valid(n);
    if n >= 10 {
        lemma_digits_of_no_leading_zero(n / 10);
    }
}

/// The place value of the leading digit of `n` is at most `n`.
pub proof fn lemma_digits_of_pow_le(n: nat)
    requires
        n >= 1,
    ensures
        pow10((digits_of(n).len() - 1) as nat) <= n,
    decreases n,
{
    lemma_digits_of_valid(n);
    if n >= 10 {
        lemma_digits_of_pow_le(n / 10);
        lemma_digits_of_valid(n / 10);
        assert(digits_of(n).len() == digits_of(n / 10).len() + 1);
    }
}

/// Decomposing a number bounded by `max` yields a numeral that
/// reconstructs to the same number within the same bound.
pub proof fn lemma_decompose_reconstruct(n: nat, max: nat)
    requires
        1 <= max,
        n <= max,
    ensures
        reconstruct_ok(digits_of(n), max),
        seq_value(digits_of(n)) == n,
{
    lemma_digits_of_value(n);
    lemma_digits_of_valid(n);
    if n == 0 {
        assert(pow10((digits_of(0).len() - 1) as nat) == 1);
    } else {
        lemma_digits_of_pow_le(n);
    }
}

} // verus!
