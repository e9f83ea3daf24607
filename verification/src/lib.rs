//! A validated ten-digit national health identifier.
//!
//! The identifier is a sequence of exactly ten decimal digits, presented
//! canonically in a `DDD DDD DDDD` grouping. The last digit is an
//! error-detecting check digit computed from the first nine by a weighted
//! modular checksum.

use vstd::prelude::*;

pub mod from_str;
pub mod parse_error;
pub mod testable;

pub use testable::{testable_max, testable_min, testable_random_sample};

verus! {

/// A ten-digit identifier. Each element of `digits` is a decimal digit in
/// the range `[0, 9]`; that range is stated by [`all_digits`] and required
/// by the operations that depend on it.
#[derive(Debug, PartialEq, Eq, PartialOrd, Ord, Clone, Copy)]
pub struct NHSNumber {
    pub digits: [i8; 10],
}

/// Every element of a digit sequence is a decimal digit.
pub open spec fn all_digits(ds: Seq<i8>) -> bool {
    forall|i: int| 0 <= i < ds.len() ==> 0 <= #[trigger] ds[i] <= 9
}

/// The weighted sum of the first `n` digits: digit `i` (zero-based)
/// carries weight `10 - i`.
pub open spec fn weighted_sum_prefix(ds: Seq<i8>, n: int) -> int
    recommends
        0 <= n <= ds.len(),
    decreases n,
{
    if n <= 0 {
        0
    } else {
        weighted_sum_prefix(ds, n - 1) + ds[n - 1] * (11 - n)
    }
}

/// The checksum base: the weighted sum of the first nine digits.
pub open spec fn weighted_sum(ds: Seq<i8>) -> int {
    weighted_sum_prefix(ds, 9)
}

/// What the check digit should be, given the first nine digits: the
/// weighted sum is reduced modulo 11 and the remainder subtracted from 11.
///
/// The published algorithm calls a raw value of 11 the digit 0 and calls a
/// raw value of 10 invalid; this formula reproduces the reference
/// behaviour, which folds both cases through `% 10` (a remainder of 10
/// silently yields the digit 1) rather than reporting an invalid checksum.
pub open spec fn spec_calculate_check_digit(ds: Seq<i8>) -> int {
    (11 - (weighted_sum(ds) % 11)) % 10
}

/// The character that renders a decimal digit.
pub open spec fn char_of_digit(d: int) -> char {
    ((48 + d) as u8) as char
}

/// Where character `i` of the canonical grouped form comes from in the
/// digit sequence: the two separators at indices 3 and 7 shift the later
/// groups by one and two places.
pub open spec fn format_source_index(i: int) -> int {
    if i < 3 {
        i
    } else if i < 7 {
        i - 1
    } else {
        i - 2
    }
}

/// The canonical grouped rendering of a ten-digit sequence: three digits,
/// a space, three digits, a space, four digits.
pub open spec fn spec_format(ds: Seq<i8>) -> Seq<char> {
    Seq::new(
        12,
        |i: int|
            if i == 3 || i == 7 {
                ' '
            } else {
                char_of_digit(ds[format_source_index(i)] as int)
            },
    )
}

/// The one-character string that renders a decimal digit.
fn digit_str(d: i8) -> (r: &'static str)
    requires
        0 <= d <= 9,
    ensures
        r@.len() == 1,
        r@[0] == char_of_digit(d as int),
{
    match d {
        0 => {
            proof {
                reveal_strlit("0");
            }
            "0"
        },
        1 => {
            proof {
                reveal_strlit("1");
            }
            "1"
        },
        2 => {
            proof {
                reveal_strlit("2");
            }
            "2"
        },
        3 => {
            proof {
                reveal_strlit("3");
            }
            "3"
        },
        4 => {
            proof {
                reveal_strlit("4");
            }
            "4"
        },
        5 => {
            proof {
                reveal_strlit("5");
            }
            "5"
        },
        6 => {
            proof {
                reveal_strlit("6");
            }
            "6"
        },
        7 => {
            proof {
                reveal_strlit("7");
            }
            "7"
        },
        8 => {
            proof {
                reveal_strlit("8");
            }
            "8"
        },
        _ => {
            proof {
                reveal_strlit("9");
            }
            "9"
        },
    }
}

/// Format a ten-digit sequence in the canonical grouped form.
pub fn format(digits: [i8; 10]) -> (r: String)
    requires
        all_digits(digits@),
    ensures
        r@ == spec_format(digits@),
{
    let mut s: String = String::new();
    s.append(digit_str(digits[0]));
    s.append(digit_str(digits[1]));
    s.append(digit_str(digits[2]));
    s.append(" ");
    s.append(digit_str(digits[3]));
    s.append(digit_str(digits[4]));
    s.append(digit_str(digits[5]));
    s.append(" ");
    s.append(digit_str(digits[6]));
    s.append(digit_str(digits[7]));
    s.append(digit_str(digits[8]));
    s.append(digit_str(digits[9]));
    proof {
        reveal_strlit(" ");
        assert(s@ =~= spec_format(digits@));
    }
    s
}

/// Get the check digit of a digit sequence: the last digit, as stored.
pub fn check_digit(digits: [i8; 10]) -> (r: i8)
    ensures
        r == digits@[9],
{
    digits[9]
}

/// Calculate the check digit that the first nine digits call for.
pub fn calculate_check_digit(digits: [i8; 10]) -> (r: i8)
    requires
        all_digits(digits@),
    ensures
        r == spec_calculate_check_digit(digits@),
        0 <= r <= 9,
{
    let mut sum: u32 = 0;
    for i in 0..9usize
        invariant
            all_digits(digits@),
            sum == weighted_sum_prefix(digits@, i as int),
            sum <= 90 * i,
    {
        let d: u32 = digits[i] as u32;
        let w: u32 = 10 - i as u32;
        assert(d * w <= 90) by (nonlinear_arith)
            requires
                d <= 9,
                w <= 10,
        ;
        sum = sum + d * w;
    }
    let remainder: u32 = sum % 11;
    let checksum: u32 = (11 - remainder) % 10;
    checksum as i8
}

/// Validate that the stored check digit equals the calculated one.
pub fn validate_check_digit(digits: [i8; 10]) -> (r: bool)
    requires
        all_digits(digits@),
    ensures
        r == (digits@[9] == spec_calculate_check_digit(digits@)),
{
    check_digit(digits) == calculate_check_digit(digits)
}

impl NHSNumber {
    /// Create a new identifier from the given digits.
    pub fn new(digits: [i8; 10]) -> (r: Self)
        ensures
            r.digits == digits,
    {
        NHSNumber { digits }
    }

    /// Get the identifier's check digit, that is, its last digit.
    pub fn check_digit(&self) -> (r: i8)
        ensures
            r == self.digits@[9],
    {
        crate::check_digit(self.digits)
    }

    /// Calculate the check digit that the identifier's first nine digits
    /// call for.
    pub fn calculate_check_digit(&self) -> (r: i8)
        requires
            all_digits(self.digits@),
        ensures
            r == spec_calculate_check_digit(self.digits@),
            0 <= r <= 9,
    {
        crate::calculate_check_digit(self.digits)
    }

    /// Validate that the identifier's check digit equals the calculated
    /// one.
    pub fn validate_check_digit(&self) -> (r: bool)
        requires
            all_digits(self.digits@),
        ensures
            r == (self.digits@[9] == spec_calculate_check_digit(self.digits@)),
    {
        crate::validate_check_digit(self.digits)
    }

    /// Generate a random identifier in the reserved test range.
    pub fn testable_random_sample() -> (r: NHSNumber)
        ensures
            all_digits(r.digits@),
            r.digits@[0] == 9 && r.digits@[1] == 9 && r.digits@[2] == 9,
            testable::lex_le(testable::testable_min_digits(), r.digits@),
            testable::lex_le(r.digits@, testable::testable_max_digits()),
    {
        crate::testable::testable_random_sample()
    }

    /// Render the identifier in its canonical grouped form.
    pub fn to_string(&self) -> (r: String)
        requires
            all_digits(self.digits@),
        ensures
            r@ == spec_format(self.digits@),
    {
        format(self.digits)
    }
}

} // verus!
