//! Text parsing and rendering of digit sequences.
//!
//! Parsing maps every character through the base-10 digit interpreter,
//! accepting only `'0'`–`'9'`; the first other character, scanning left
//! to right, is reported in [`CrateError::NonDigitChar`]. No whitespace
//! is trimmed and no sign is accepted. Rendering concatenates the digit
//! characters in stored order; the empty sequence renders as the empty
//! string. Error values render as short diagnostic messages.

use vstd::prelude::*;

use vstd::string::{StrSliceExecFns, StringExecFns};

use crate::internal_create_digit_sequence;
use crate::numerals::{digits_of, digits_valid};
use crate::result::{CrateError, CrateResult};
use crate::DigitSequence;

verus! {

/// Relies on String::push: appends the given character to the end of the
/// string.
pub assume_specification[ String::push ](s: &mut String, ch: char)
    ensures
        final(s)@ == old(s)@.push(ch),
;

/// The digit character for a digit value.
pub open spec fn digit_char(d: u8) -> char {
    ((d + 48) as char)
}

/// Whether a character is one of the ten decimal digit characters.
pub open spec fn is_digit_char(c: char) -> bool {
    48 <= c as int <= 57
}

/// The digit value of a decimal digit character.
pub open spec fn char_digit(c: char) -> u8 {
    ((c as int - 48) as u8)
}

/// Whether every character of a text is a decimal digit character.
pub open spec fn text_digits(cs: Seq<char>) -> bool {
    forall|i: int| 0 <= i < cs.len() ==> is_digit_char(cs[i])
}

/// The characters that render a digit sequence, in stored order.
pub open spec fn render_chars(s: Seq<u8>) -> Seq<char> {
    Seq::new(s.len(), |i: int| digit_char(s[i]))
}

/// The digit values of a text of decimal digit characters.
pub open spec fn chars_as_digits(cs: Seq<char>) -> Seq<u8> {
    Seq::new(cs.len(), |i: int| char_digit(cs[i]))
}

/// Rendering then parsing gives the digits back unchanged: every
/// rendered character is a digit character, and interpreting them again
/// restores the original sequence exactly, leading zeros included.
pub proof fn lemma_render_parse_roundtrip(s: Seq<u8>)
    requires
        digits_valid(s),
    ensures
        text_digits(render_chars(s)),
        chars_as_digits(render_chars(s)) == s,
{
    assert forall|i: int| 0 <= i < render_chars(s).len() implies is_digit_char(
        render_chars(s)[i],
    ) by {
        assert(s[i] <= 9);
        assert(render_chars(s)[i] == digit_char(s[i]));
    }
    assert forall|i: int| 0 <= i < s.len() implies chars_as_digits(render_chars(s))[i] == s[i] by {
        assert(s[i] <= 9);
        assert(char_digit(digit_char(s[i])) == s[i]);
    }
    assert(chars_as_digits(render_chars(s)) =~= s);
}

impl DigitSequence {
    /// Parses a text into a digit sequence; the empty text yields the
    /// empty sequence.
    pub fn from_text(text: &str) -> (result: CrateResult<DigitSequence>)
        ensures
            match result {
                Ok(sequence) => text_digits(text@) && sequence@ == chars_as_digits(text@),
                Err(error) => exists|i: int|
                    {
                        &&& 0 <= i < text@.len()
                        &&& !is_digit_char(text@[i])
                        &&& (forall|j: int| 0 <= j < i ==> is_digit_char(text@[j]))
                        &&& error == CrateError::NonDigitChar(text@[i])
                    },
            },
    {
        let n = text.unicode_len();
        let mut digits: Vec<u8> = Vec::new();
        let mut i: usize = 0;
        while i < n
            invariant
                i <= n,
                n == text@.len(),
                digits@ == chars_as_digits(text@.take(i as int)),
                forall|j: int| 0 <= j < i ==> is_digit_char(text@[j]),
            decreases n - i,
        {
            let c = text.get_char(i);
            let code = c as u32;
            if code < 48 || code > 57 {
                return Err(CrateError::NonDigitChar(c));
            }
            digits.push((code - 48) as u8);
            i += 1;
            proof {
                assert(digits@ =~= chars_as_digits(text@.take(i as int)));
            }
        }
        proof {
            assert(text@.take(n as int) =~= text@);
            assert(digits@ =~= chars_as_digits(text@));
            assert(digits_valid(digits@));
        }
        Ok(internal_create_digit_sequence(digits))
    }

    /// Renders the sequence as the concatenation of its digit
    /// characters, in stored order, with no separators.
    pub fn to_string(&self) -> (text: String)
        ensures
            text@ == render_chars(self@),
    {
        let n = self.len();
        let mut out = String::new();
        let mut i: usize = 0;
        while i < n
            invariant
                i <= n,
                n == self@.len(),
                out@ == render_chars(self@.take(i as int)),
            decreases n - i,
        {
            let d = self.digit_at(i);
            out.push((d + 48) as char);
            i += 1;
            proof {
                assert(out@ =~= render_chars(self@.take(i as int)));
            }
        }
        proof {
            assert(out@ =~= render_chars(self@));
        }
        out
    }
}

/// Appends the decimal rendering of `value` to `out`.
fn append_number(out: &mut String, value: u128)
    ensures
        final(out)@ == old(out)@ + render_chars(digits_of(value as nat)),
    decreases value,
{
    if value >= 10 {
        append_number(out, value / 10);
    }
    out.push(((value % 10) as u8 + 48) as char);
    proof {
        assert(out@ =~= old(out)@ + render_chars(digits_of(value as nat)));
    }
}

/// The characters of the diagnostic message of an error.
pub open spec fn error_message_chars(error: CrateError) -> Seq<char> {
    match error {
        CrateError::NonDigitChar(c) => "Non-digit char: "@.push(c),
        CrateError::NonDigitNumber(n) => "Non-digit number: "@ + render_chars(
            digits_of(n as nat),
        ),
        CrateError::NegativeNumber(v) => "Cannot convert negative number: "@ + (if v < 0 {
            seq!['-'] + render_chars(digits_of((-(v as int)) as nat))
        } else {
            render_chars(digits_of(v as nat))
        }),
        CrateError::Overflow => "Overflow"@,
    }
}

impl CrateError {
    /// Renders the error as a short diagnostic message.
    pub fn message(&self) -> (text: String)
        ensures
            text@ == error_message_chars(*self),
    {
        let mut out = String::new();
        match self {
            CrateError::NonDigitChar(c) => {
                out.append("Non-digit char: ");
                out.push(*c);
                proof {
                    assert(out@ =~= error_message_chars(*self));
                }
            },
            CrateError::NonDigitNumber(n) => {
                out.append("Non-digit number: ");
                append_number(&mut out, *n);
                proof {
                    assert(out@ =~= error_message_chars(*self));
                }
            },
            CrateError::NegativeNumber(v) => {
                out.append("Cannot convert negative number: ");
                if *v < 0 {
                    out.push('-');
                    let magnitude: u128 = if *v == i128::MIN {
                        (i128::MAX as u128) + 1
                    } else {
                        (-*v) as u128
                    };
                    append_number(&mut out, magnitude);
                } else {
                    append_number(&mut out, *v as u128);
                }
                proof {
                    assert(out@ =~= error_message_chars(*self));
                }
            },
            CrateError::Overflow => {
                out.append("Overflow");
                proof {
                    assert(out@ =~= error_message_chars(*self));
                }
            },
        }
        out
    }
}

} // verus!
