//! Field-level checks on what a caller submits.
use crate::error::{AuthError, ValidationIssue};
use vstd::prelude::*;

verus! {

/// Whether a text has at least `min` characters and, if `max` is given, at
/// most `max`.
pub open spec fn length_ok(text: Seq<char>, min: u64, max: Option<u64>) -> bool {
    &&& min <= text.len()
    &&& (max matches Some(most) ==> text.len() <= most)
}

/// Checks the length of a text. Calls `validate_length` of the trait
/// `validator::ValidateLength`, which for a `str` counts its characters and
/// compares the count with the bounds that are given.
#[verifier::external_body]
pub(crate) fn length_in_range(text: &str, min: u64, max: Option<u64>) -> (ok: bool)
    ensures
        ok == length_ok(text@, min, max),
{
    validator::ValidateLength::validate_length(text, Some(min), max, None)
}

/// The verdict on an input, from whether its fields passed their checks.
pub fn verdict(passed: bool) -> (r: Result<(), AuthError>)
    ensures
        r == if passed {
            Ok::<(), AuthError>(())
        } else {
            Err::<(), AuthError>(AuthError::ValidationError(ValidationIssue::MalformedInput))
        },
{
    if passed {
        Ok(())
    } else {
        Err(AuthError::ValidationError(ValidationIssue::MalformedInput))
    }
}

} // verus!
