//! JSON values as the parser hands them out, and the few facts the rest of the
//! crate relies on about them.

use vstd::prelude::*;

verus! {

#[verifier::external_type_specification]
#[verifier::external_body]
pub struct ExJsonValue(serde_json::Value);

#[verifier::external_type_specification]
#[verifier::external_body]
pub struct ExJsonError(serde_json::Error);

/// The compact JSON text of a value: what `serde_json::Value` prints through
/// `Display`. It stands for everything the value holds.
pub uninterp spec fn json_text(value: serde_json::Value) -> Seq<char>;

/// What `serde_json::from_str` makes of a text: the compact text of the
/// value it parses to, or `None` where it reports an error.
pub uninterp spec fn json_parse(text: Seq<char>) -> Option<Seq<char>>;

/// What `serde_json::to_string_pretty` makes of the value whose compact text
/// is given: the indented text, or `None` where it reports an error.
pub uninterp spec fn json_pretty(compact: Seq<char>) -> Option<Seq<char>>;

/// The text that a JSON value is, where it is a string: what
/// `serde_json::Value::as_str` gives for the value whose compact text is
/// given. `None` for a value of any other kind.
pub uninterp spec fn json_string(compact: Seq<char>) -> Option<Seq<char>>;

/// The compact text of the JSON string that holds a text: what
/// `serde_json::Value::from` makes of a `String`.
pub uninterp spec fn json_quoted(text: Seq<char>) -> Seq<char>;

/// The compact text of JSON `null`.
pub open spec fn null_text() -> Seq<char> {
    seq!['n', 'u', 'l', 'l']
}

/// Calls `serde_json::from_str` for a `Value`. Not proved: the call succeeds
/// exactly on the texts for which `json_parse` is `Some`, and the value it
/// returns has that compact text.
#[verifier::external_body]
pub(crate) fn from_str(text: &str) -> (r: Result<serde_json::Value, serde_json::Error>)
    ensures
        r.is_ok() == json_parse(text@).is_some(),
        r matches Ok(value) ==> json_parse(text@) == Some(json_text(value)),
{
    serde_json::from_str::<serde_json::Value>(text)
}

/// Calls `serde_json::to_string_pretty` on a value. Not proved: the outcome
/// is `json_pretty` of the value's compact text. Nothing is claimed about
/// when the call succeeds.
#[verifier::external_body]
pub(crate) fn to_string_pretty(value: &serde_json::Value) -> (r: Result<String, serde_json::Error>)
    ensures
        r.is_ok() == json_pretty(json_text(*value)).is_some(),
        r matches Ok(text) ==> json_pretty(json_text(*value)) == Some(text@),
{
    serde_json::to_string_pretty(value)
}

/// `serde_json::Value::is_null`: true for `Value::Null` alone, the one value
/// whose compact text is `null`.
pub assume_specification[ serde_json::Value::is_null ](value: &serde_json::Value) -> (r: bool)
    ensures
        r == (json_text(*value) == null_text()),
;

/// `Clone` of `serde_json::Value`: the copy is the same value.
pub assume_specification[ <serde_json::Value as Clone>::clone ](value: &serde_json::Value) -> (r:
    serde_json::Value)
    ensures
        r == *value,
;

/// `serde_json::Value::as_str`: the text of a string value, `None` for a
/// value of any other kind.
pub assume_specification<'a>[ serde_json::Value::as_str ](value: &'a serde_json::Value) -> (r:
    Option<&'a str>)
    ensures
        r.is_some() == json_string(json_text(*value)).is_some(),
        r matches Some(text) ==> json_string(json_text(*value)) == Some(text@),
;

/// Prints a value through `Display`, as `to_string` does. Not proved: the
/// result is the value's compact text.
#[verifier::external_body]
pub(crate) fn to_text(value: &serde_json::Value) -> (r: String)
    ensures
        r@ == json_text(*value),
{
    value.to_string()
}

/// Calls `serde_json::Value::from` on a `String`, which makes the JSON
/// string that holds it. Not proved: the compact text of the result is
/// `json_quoted` of the text, and the result is a string with that text.
#[verifier::external_body]
pub(crate) fn from_string(text: String) -> (r: serde_json::Value)
    ensures
        json_text(r) == json_quoted(text@),
        json_string(json_text(r)) == Some(text@),
{
    serde_json::Value::from(text)
}

/// Builds `serde_json::Value::Null`, whose compact text is `null`.
#[verifier::external_body]
pub(crate) fn null() -> (r: serde_json::Value)
    ensures
        json_text(r) == null_text(),
{
    serde_json::Value::Null
}

} // verus!
