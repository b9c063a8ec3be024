//! Equality and lexicographic ordering of digit sequences.
//!
//! Two sequences are equal exactly when they hold the same digits in the
//! same order. Ordering is lexicographic over the stored digits: the
//! first differing digit decides, and a sequence that is a strict prefix
//! of another sorts before it. Leading zeros are not collapsed, so this
//! is not numeric-value ordering.

use vstd::prelude::*;

use core::cmp::Ordering;

use crate::DigitSequence;

verus! {

/// Lexicographic comparison of two digit sequences: the first differing
/// position decides, and a strict prefix sorts before the longer
/// sequence.
pub open spec fn lex_cmp(a: Seq<u8>, b: Seq<u8>) -> Ordering
    decreases a.len(),
{
    if a.len() == 0 && b.len() == 0 {
        Ordering::Equal
    } else if a.len() == 0 {
        Ordering::Less
    } else if b.len() == 0 {
        Ordering::Greater
    } else if a[0] < b[0] {
        Ordering::Less
    } else if a[0] > b[0] {
        Ordering::Greater
    } else {
        lex_cmp(a.drop_first(), b.drop_first())
    }
}

/// Sequences compare as equal exactly when they are the same sequence.
pub proof fn lemma_lex_cmp_equal(a: Seq<u8>, b: Seq<u8>)
    ensures
        lex_cmp(a, b) == Ordering::Equal <==> a == b,
    decreases a.len(),
{
    if a.len() == 0 && b.len() == 0 {
        assert(a =~= b);
    } else if a.len() != 0 && b.len() != 0 && a[0] == b[0] {
        lemma_lex_cmp_equal(a.drop_first(), b.drop_first());
        if lex_cmp(a, b) == Ordering::Equal {
            assert(a.drop_first() == b.drop_first());
            assert forall|j: int| 0 <= j < a.len() implies a[j] == b[j] by {
                if j >= 1 {
                    assert(a[j] == a.drop_first()[j - 1]);
                    assert(b[j] == b.drop_first()[j - 1]);
                }
            }
            assert(a =~= b);
        }
        if a == b {
            assert(a.drop_first() =~= b.drop_first());
        }
    }
}

/// Skipping a shared prefix does not change the comparison.
proof fn lemma_lex_cmp_skip(a: Seq<u8>, b: Seq<u8>, i: int)
    requires
        0 <= i <= a.len(),
        i <= b.len(),
        forall|j: int| 0 <= j < i ==> a[j] == b[j],
    ensures
        lex_cmp(a, b) == lex_cmp(a.skip(i), b.skip(i)),
    decreases i,
{
    if i > 0 {
        assert(a.len() != 0 && b.len() != 0 && a[0] == b[0]);
        assert(lex_cmp(a, b) == lex_cmp(a.drop_first(), b.drop_first()));
        lemma_lex_cmp_skip(a.drop_first(), b.drop_first(), i - 1);
        assert(a.drop_first().skip(i - 1) =~= a.skip(i));
        assert(b.drop_first().skip(i - 1) =~= b.skip(i));
    } else {
        assert(a.skip(0) =~= a);
        assert(b.skip(0) =~= b);
    }
}

impl PartialEq for DigitSequence {
    fn eq(&self, other: &DigitSequence) -> (r: bool)
    {
        let a = self.len();
        if a != other.len() {
            return false;
        }
        let mut i: usize = 0;
        while i < a
            invariant
                a == self@.len(),
                a == other@.len(),
                i <= a,
                forall|j: int| 0 <= j < i ==> self@[j] == other@[j],
            decreases a - i,
        {
            if self.digit_at(i) != other.digit_at(i) {
                return false;
            }
            i += 1;
        }
        proof {
            assert(self@ =~= other@);
        }
        true
    }
}

impl vstd::std_specs::cmp::PartialEqSpecImpl for DigitSequence {
    open spec fn obeys_eq_spec() -> bool {
        true
    }

    open spec fn eq_spec(&self, other: &DigitSequence) -> bool {
        self@ == other@
    }
}

impl PartialOrd for DigitSequence {
    fn partial_cmp(&self, other: &DigitSequence) -> (r: Option<Ordering>)
    {
        let a = self.len();
        let b = other.len();
        let mut i: usize = 0;
        loop
            invariant
                a == self@.len(),
                b == other@.len(),
                i <= a,
                i <= b,
                forall|j: int| 0 <= j < i ==> self@[j] == other@[j],
            decreases a - i,
        {
            proof {
                lemma_lex_cmp_skip(self@, other@, i as int);
            }
            if i >= a && i >= b {
                proof {
                    lemma_lex_cmp_equal(self@, other@);
                }
                return Some(Ordering::Equal);
            }
            if i >= a {
                return Some(Ordering::Less);
            }
            if i >= b {
                return Some(Ordering::Greater);
            }
            let da = self.digit_at(i);
            let db = other.digit_at(i);
            if da < db {
                return Some(Ordering::Less);
            }
            if da > db {
                return Some(Ordering::Greater);
            }
            proof {
                assert(self@.skip(i as int)[0] == other@.skip(i as int)[0]);
            }
            i += 1;
        }
    }
}

impl vstd::std_specs::cmp::PartialOrdSpecImpl for DigitSequence {
    open spec fn obeys_partial_cmp_spec() -> bool {
        true
    }

    open spec fn partial_cmp_spec(&self, other: &DigitSequence) -> Option<Ordering> {
        Some(lex_cmp(self@, other@))
    }
}

} // verus!
