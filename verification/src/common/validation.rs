//! Length rules on request fields.

use crate::common::result::AppError;
use vstd::prelude::*;

verus! {

/// Whether a text has at least `min` characters, from
/// `validator::ValidateLength::validate_length` with only a minimum given.
/// That function counts the characters of the text and fails exactly when
/// the count is below the minimum.
#[verifier::external_body]
pub(crate) fn has_min_length(value: &str, min: u64) -> (ok: bool)
    ensures
        ok == (value@.len() >= min),
{
    validator::ValidateLength::validate_length(value, Some(min), None, None)
}

/// The text of a length violation, as `validator::ValidationErrors` renders
/// one error of code `length` on one field. The rendering walks a hash map of
/// the error's parameters, so nothing is claimed of the text.
#[verifier::external_body]
pub(crate) fn length_violation(field: &'static str, min: u64, value: &str) -> (msg: String) {
    let mut violation = validator::ValidationError::new("length");
    violation.add_param(std::borrow::Cow::from("min"), &min);
    violation.add_param(std::borrow::Cow::from("value"), &value);
    let mut errors = validator::ValidationErrors::new();
    errors.add(field, violation);
    errors.to_string()
}

/// Holds a text field to a minimum length in characters.
pub fn require_min_length(field: &'static str, value: &str, min: u64) -> (r: Result<(), AppError>)
    ensures
        value@.len() >= min ==> r is Ok,
        value@.len() < min ==> r matches Err(AppError::BadRequest { .. }),
{
    if has_min_length(value, min) {
        Ok(())
    } else {
        Err(AppError::BadRequest { msg: length_violation(field, min, value) })
    }
}

} // verus!
