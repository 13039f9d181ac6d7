//! HTTP status codes.

use vstd::prelude::*;

verus! {

/// The standard reason phrase of a status code, as
/// `reqwest::StatusCode::canonical_reason` gives it for the code that
/// `reqwest::StatusCode::from_u16` accepts; `None` where the code is refused
/// or has no phrase.
pub uninterp spec fn status_reason(code: u16) -> Option<Seq<char>>;

/// True for the codes that `reqwest::Response::error_for_status` turns into an
/// error: the client errors and the server errors.
pub open spec fn is_error_status(code: u16) -> bool {
    400 <= code < 600
}

/// Decides whether a status code counts as an error.
pub fn status_is_error(code: u16) -> (r: bool)
    ensures
        r == is_error_status(code),
{
    400 <= code && code < 600
}

/// Calls `reqwest::StatusCode::from_u16` and, on the code it accepts,
/// `canonical_reason`. Not proved: the phrase returned is `status_reason` of
/// the code.
#[verifier::external_body]
pub(crate) fn canonical_reason(code: u16) -> (r: Option<String>)
    ensures
        r.is_some() == status_reason(code).is_some(),
        r matches Some(phrase) ==> status_reason(code) == Some(phrase@),
{
    match reqwest::StatusCode::from_u16(code) {
        Ok(status) => status.canonical_reason().map(|phrase| phrase.to_string()),
        Err(_) => None,
    }
}

} // verus!
