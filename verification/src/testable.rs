//! The reserved test range and its random sample generator.
//!
//! Identifiers whose first three digits are 9, 9, 9 are guaranteed never
//! to be issued to a real person, so they are safe as test fixtures. The
//! generator draws the remaining seven digits at random; every sample lies
//! between [`testable_min`] and [`testable_max`] in lexicographic order.

use crate::NHSNumber;
use rand::Rng;
use vstd::prelude::*;

verus! {

/// The digits of the smallest identifier in the reserved test range.
pub open spec fn testable_min_digits() -> Seq<i8> {
    seq![9i8, 9i8, 9i8, 0i8, 0i8, 0i8, 0i8, 0i8, 0i8, 0i8]
}

/// The digits of the largest identifier in the reserved test range.
pub open spec fn testable_max_digits() -> Seq<i8> {
    seq![9i8, 9i8, 9i8, 9i8, 9i8, 9i8, 9i8, 9i8, 9i8, 9i8]
}

/// Lexicographic order on digit sequences of equal length: `a` comes no
/// later than `b`.
pub open spec fn lex_le(a: Seq<i8>, b: Seq<i8>) -> bool
    recommends
        a.len() == b.len(),
    decreases a.len(),
{
    if a.len() == 0 || b.len() == 0 {
        true
    } else if a[0] < b[0] {
        true
    } else if a[0] == b[0] {
        lex_le(a.drop_first(), b.drop_first())
    } else {
        false
    }
}

/// A sequence that is no larger at any position comes no later in
/// lexicographic order.
pub proof fn lemma_lex_le_pointwise(a: Seq<i8>, b: Seq<i8>)
    requires
        a.len() == b.len(),
        forall|i: int| 0 <= i < a.len() ==> #[trigger] a[i] <= b[i],
    ensures
        lex_le(a, b),
    decreases a.len(),
{
    if a.len() > 0 && a[0] == b[0] {
        lemma_lex_le_pointwise(a.drop_first(), b.drop_first());
    }
}

/// The smallest identifier in the reserved test range.
pub fn testable_min() -> (r: NHSNumber)
    ensures
        r.digits@ == testable_min_digits(),
{
    let r = NHSNumber { digits: [9, 9, 9, 0, 0, 0, 0, 0, 0, 0] };
    proof {
        assert(r.digits@ =~= testable_min_digits());
    }
    r
}

/// The largest identifier in the reserved test range.
pub fn testable_max() -> (r: NHSNumber)
    ensures
        r.digits@ == testable_max_digits(),
{
    let r = NHSNumber { digits: [9, 9, 9, 9, 9, 9, 9, 9, 9, 9] };
    proof {
        assert(r.digits@ =~= testable_max_digits());
    }
    r
}

/// Relies on rand::rng and rand::Rng::random_range: a sample drawn from a
/// non-empty inclusive range lies within that range (random_range panics
/// only on an empty range).
#[verifier::external_body]
fn random_in_range(lo: i8, hi: i8) -> (r: i8)
    requires
        lo <= hi,
    ensures
        lo <= r <= hi,
{
    rand::rng().random_range(lo..=hi)
}

/// Generate a random identifier in the reserved test range: the first
/// three digits are fixed to 9, 9, 9 and the remaining seven are drawn
/// from 0 to 9. Every sample lies between the range's minimum and maximum
/// in lexicographic order; nothing is promised of its check digit.
pub fn testable_random_sample() -> (r: NHSNumber)
    ensures
        crate::all_digits(r.digits@),
        r.digits@[0] == 9 && r.digits@[1] == 9 && r.digits@[2] == 9,
        lex_le(testable_min_digits(), r.digits@),
        lex_le(r.digits@, testable_max_digits()),
{
    let d3: i8 = random_in_range(0, 9);
    let d4: i8 = random_in_range(0, 9);
    let d5: i8 = random_in_range(0, 9);
    let d6: i8 = random_in_range(0, 9);
    let d7: i8 = random_in_range(0, 9);
    let d8: i8 = random_in_range(0, 9);
    let d9: i8 = random_in_range(0, 9);
    let r = NHSNumber { digits: [9, 9, 9, d3, d4, d5, d6, d7, d8, d9] };
    proof {
        lemma_lex_le_pointwise(testable_min_digits(), r.digits@);
        lemma_lex_le_pointwise(r.digits@, testable_max_digits());
    }
    r
}

} // verus!
