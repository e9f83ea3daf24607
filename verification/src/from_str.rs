//! Parsing a candidate string into an identifier.
//!
//! Exactly two input shapes are accepted: ten digits with no separators,
//! or twelve characters grouped `DDD DDD DDDD` with a single space after
//! the third and after the sixth digit. Anything else fails with
//! [`ParseError`].

use crate::parse_error::ParseError;
use crate::NHSNumber;
use vstd::prelude::*;

verus! {

/// The character is an ASCII decimal digit.
pub open spec fn is_digit_char(c: char) -> bool {
    48 <= c as int <= 57
}

/// The digit a decimal digit character stands for.
pub open spec fn digit_val(c: char) -> i8 {
    (c as int - 48) as i8
}

/// A valid ungrouped input: exactly ten characters, all digits.
pub open spec fn valid_ungrouped(s: Seq<char>) -> bool {
    &&& s.len() == 10
    &&& forall|i: int| 0 <= i < 10 ==> is_digit_char(#[trigger] s[i])
}

/// A valid grouped input: exactly twelve characters, a space at indices 3
/// and 7, and a digit everywhere else.
pub open spec fn valid_grouped(s: Seq<char>) -> bool {
    &&& s.len() == 12
    &&& s[3] == ' '
    &&& s[7] == ' '
    &&& forall|i: int| 0 <= i < 12 && i != 3 && i != 7 ==> is_digit_char(#[trigger] s[i])
}

/// The digits of a valid ungrouped input, position by position.
pub open spec fn ungrouped_digits(s: Seq<char>) -> Seq<i8> {
    Seq::new(10, |i: int| digit_val(s[i]))
}

/// Where digit `i` of the identifier sits in a grouped input: the two
/// separators shift the later groups by one and two places.
pub open spec fn grouped_source_index(i: int) -> int {
    if i < 3 {
        i
    } else if i < 6 {
        i + 1
    } else {
        i + 2
    }
}

/// The digits of a valid grouped input, position by position.
pub open spec fn grouped_digits(s: Seq<char>) -> Seq<i8> {
    Seq::new(10, |i: int| digit_val(s[grouped_source_index(i)]))
}

/// Convert one character to the digit it stands for, or nothing if it is
/// not a digit.
fn char_to_digit(c: char) -> (r: Option<i8>)
    ensures
        r is Some <==> is_digit_char(c),
        is_digit_char(c) ==> r == Some(digit_val(c)) && 0 <= digit_val(c) <= 9,
{
    let u: u32 = c as u32;
    if 48 <= u && u <= 57 {
        Some((u - 48) as i8)
    } else {
        None
    }
}

/// Parse a candidate string into an identifier.
///
/// Succeeds exactly on the two accepted shapes and then returns the ten
/// digits the input spells; every other input fails with [`ParseError`].
/// No partial result is ever produced.
pub fn parse(s: &str) -> (r: Result<NHSNumber, ParseError>)
    ensures
        r is Ok <==> valid_ungrouped(s@) || valid_grouped(s@),
        valid_ungrouped(s@) ==> (r matches Ok(n) && n.digits@ == ungrouped_digits(s@)),
        valid_grouped(s@) ==> (r matches Ok(n) && n.digits@ == grouped_digits(s@)),
        r matches Ok(n) ==> crate::all_digits(n.digits@),
{
    let len: usize = s.unicode_len();
    if len == 10 {
        let mut digits: [i8; 10] = [0; 10];
        for i in 0..10usize
            invariant
                s@.len() == 10,
                forall|j: int|
                    0 <= j < i ==> is_digit_char(#[trigger] s@[j]) && digits@[j] == digit_val(
                        s@[j],
                    ),
        {
            let c: char = s.get_char(i);
            match char_to_digit(c) {
                Some(d) => {
                    digits[i] = d;
                },
                None => {
                    return Err(ParseError);
                },
            }
        }
        proof {
            assert(digits@ =~= ungrouped_digits(s@));
        }
        Ok(NHSNumber { digits })
    } else if len == 12 {
        if s.get_char(3) != ' ' || s.get_char(7) != ' ' {
            return Err(ParseError);
        }
        let mut digits: [i8; 10] = [0; 10];
        for i in 0..10usize
            invariant
                s@.len() == 12,
                s@[3] == ' ',
                s@[7] == ' ',
                forall|j: int|
                    0 <= j < i ==> is_digit_char(#[trigger] s@[grouped_source_index(j)])
                        && digits@[j] == digit_val(s@[grouped_source_index(j)]),
        {
            let src: usize = if i < 3 {
                i
            } else if i < 6 {
                i + 1
            } else {
                i + 2
            };
            let c: char = s.get_char(src);
            match char_to_digit(c) {
                Some(d) => {
                    digits[i] = d;
                },
                None => {
                    return Err(ParseError);
                },
            }
        }
        proof {
            assert forall|k: int| 0 <= k < 12 && k != 3 && k != 7 implies is_digit_char(
                s@[k],
            ) by {
                let j = crate::format_source_index(k);
                assert(grouped_source_index(j) == k);
                assert(is_digit_char(s@[grouped_source_index(j)]));
            }
            assert(digits@ =~= grouped_digits(s@));
        }
        Ok(NHSNumber { digits })
    } else {
        Err(ParseError)
    }
}

/// The canonical grouped rendering of any ten-digit sequence is a valid
/// grouped input, and parsing it recovers exactly the digits that were
/// rendered: the format-then-parse round trip is lossless.
pub proof fn lemma_format_parse_round_trip(ds: Seq<i8>)
    requires
        ds.len() == 10,
        crate::all_digits(ds),
    ensures
        valid_grouped(crate::spec_format(ds)),
        grouped_digits(crate::spec_format(ds)) == ds,
{
    let s = crate::spec_format(ds);
    assert forall|i: int| 0 <= i < 12 && i != 3 && i != 7 implies is_digit_char(s[i]) by {
        let j = crate::format_source_index(i);
        assert(0 <= ds[j] <= 9);
    }
    assert(grouped_digits(s) =~= ds);
}

/// A valid grouped input spells the same digits as the ungrouped input
/// obtained by removing its two separators.
pub proof fn lemma_grouped_strips_separators(s: Seq<char>)
    requires
        valid_grouped(s),
    ensures
        valid_ungrouped(s.subrange(0, 3) + s.subrange(4, 7) + s.subrange(8, 12)),
        ungrouped_digits(s.subrange(0, 3) + s.subrange(4, 7) + s.subrange(8, 12))
            == grouped_digits(s),
{
    let t = s.subrange(0, 3) + s.subrange(4, 7) + s.subrange(8, 12);
    assert(forall|i: int| 0 <= i < 10 ==> t[i] == s[#[trigger] grouped_source_index(i)]);
    assert(ungrouped_digits(t) =~= grouped_digits(s));
}

impl core::str::FromStr for NHSNumber {
    type Err = ParseError;

    fn from_str(s: &str) -> Result<Self, Self::Err> {
        parse(s)
    }
}

} // verus!
