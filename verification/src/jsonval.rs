//! The trusted boundary around `serde_json`: parsing one line of agent
//! output into a JSON value, and reading that value's fields.
//!
//! What is inside a `serde_json::Value` is opaque here, but every one of
//! these calls is a function of its arguments alone, so each result is
//! given a name, and the classification of a line into an event is then
//! pinned, line by line, over those names.

use vstd::prelude::*;
use crate::models::view_opt_string;

verus! {

/// `serde_json::Value`, declared so that it can stand in signatures and
/// fields; opaque to the verifier.
#[verifier::external_type_specification]
#[verifier::external_body]
pub struct ExJsonValue(serde_json::Value);

/// What `serde_json::from_str::<serde_json::Value>` returns on a string:
/// the parsed JSON document, `None` when the text is not well-formed
/// JSON. A function of the characters alone.
pub uninterp spec fn parsed_of(s: Seq<char>) -> Option<serde_json::Value>;

/// What `serde_json::Value::get` returns: the member under `key` when
/// the value is an object that has one, `None` otherwise.
pub uninterp spec fn member_of(v: serde_json::Value, key: Seq<char>) -> Option<serde_json::Value>;

/// What `serde_json::Value::as_str` returns: the contained characters
/// when the value is a JSON string, `None` otherwise.
pub uninterp spec fn str_of(v: serde_json::Value) -> Option<Seq<char>>;

/// What `serde_json::Value::as_u64` returns: the contained integer when
/// the value is a number representable as `u64`, `None` otherwise.
pub uninterp spec fn u64_of(v: serde_json::Value) -> Option<u64>;

/// What `serde_json::Value::as_bool` returns: the contained boolean when
/// the value is a JSON boolean, `None` otherwise.
pub uninterp spec fn bool_of(v: serde_json::Value) -> Option<bool>;

/// What `serde_json::Value::as_array` returns: the contained elements
/// when the value is a JSON array, `None` otherwise.
pub uninterp spec fn items_of(v: serde_json::Value) -> Option<Seq<serde_json::Value>>;

/// Relies on `serde_json::from_str::<serde_json::Value>`: parses a string
/// as one JSON document; the result depends on the characters alone.
#[verifier::external_body]
pub(crate) fn parse_json(s: &str) -> (r: Option<serde_json::Value>)
    ensures
        r == parsed_of(s@),
{
    serde_json::from_str(s).ok()
}

/// Relies on `serde_json::Value::get`: looks `key` up in a JSON object;
/// the result depends on the value and the key alone.
#[verifier::external_body]
pub(crate) fn json_get<'a>(v: &'a serde_json::Value, key: &str) -> (r: Option<
    &'a serde_json::Value,
>)
    ensures
        match r {
            Option::Some(f) => member_of(*v, key@) == Option::Some(*f),
            Option::None => member_of(*v, key@) is None,
        },
{
    v.get(key)
}

/// Relies on `serde_json::Value::as_str`: the contained string; the
/// result depends on the value alone.
#[verifier::external_body]
pub(crate) fn json_as_str(v: &serde_json::Value) -> (r: Option<String>)
    ensures
        view_opt_string(r) == str_of(*v),
{
    v.as_str().map(|s| s.to_string())
}

/// Relies on `serde_json::Value::as_u64`: the contained integer; the
/// result depends on the value alone.
#[verifier::external_body]
pub(crate) fn json_as_u64(v: &serde_json::Value) -> (r: Option<u64>)
    ensures
        r == u64_of(*v),
{
    v.as_u64()
}

/// Relies on `serde_json::Value::as_bool`: the contained boolean; the
/// result depends on the value alone.
#[verifier::external_body]
pub(crate) fn json_as_bool(v: &serde_json::Value) -> (r: Option<bool>)
    ensures
        r == bool_of(*v),
{
    v.as_bool()
}

/// Relies on `serde_json::Value::as_array`: the contained elements; the
/// result depends on the value alone.
#[verifier::external_body]
pub(crate) fn json_as_array(v: &serde_json::Value) -> (r: Option<Vec<serde_json::Value>>)
    ensures
        match r {
            Option::Some(a) => items_of(*v) == Option::Some(a@),
            Option::None => items_of(*v) is None,
        },
{
    v.as_array().cloned()
}

/// Relies on `serde_json::Value::Null` being a plain constructor: the
/// explicit "no structured input" marker.
#[verifier::external_body]
pub(crate) fn json_null() -> (r: serde_json::Value) {
    serde_json::Value::Null
}

} // verus!
