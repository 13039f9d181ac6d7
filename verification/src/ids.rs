//! Identifiers of requests and collections.

use vstd::prelude::*;

verus! {

/// How long an identifier is: 32 hexadecimal digits in five groups, with a
/// hyphen between the groups.
pub const ID_LENGTH: usize = 36;

/// Draws a random identifier with `uuid::Uuid::new_v4` and prints it through
/// `Display`, which writes the hyphenated form. Not proved: the text has the
/// length of that form. Nothing else is claimed of it: two identifiers may
/// be any two texts.
#[verifier::external_body]
pub(crate) fn fresh_id() -> (r: String)
    ensures
        r@.len() == ID_LENGTH,
{
    uuid::Uuid::new_v4().to_string()
}

} // verus!
