//! The error reported for any string that is not a valid identifier.

use vstd::prelude::*;

verus! {

/// The single error returned when a candidate string is not a valid
/// identifier: wrong length, a misplaced separator, or a non-digit where
/// a digit is required.
#[derive(Debug, PartialEq, Eq, Clone, Copy)]
pub struct ParseError;

} // verus!
