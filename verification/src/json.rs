//! JSON request bodies, read with `serde_json`. Values are opaque here: the
//! gateway only asks whether a body parses, and reads a few top-level fields.

use serde_json::Value;
use vstd::prelude::*;

verus! {

/// `serde_json::Value`, a parsed JSON document; opaque here.
#[verifier::external_type_specification]
#[verifier::external_body]
pub struct ExJsonValue(Value);

/// What `serde_json::from_slice::<Value>` makes of the bytes `body`: the
/// document, or the text of the parse error.
pub uninterp spec fn json_parse(body: Seq<u8>) -> Result<Value, Seq<char>>;

/// The text of the error that parsing `body` as JSON reports, or `None` when
/// the bytes are one JSON document.
pub open spec fn json_parse_error(body: Seq<u8>) -> Option<Seq<char>> {
    match json_parse(body) {
        Ok(_) => None,
        Err(m) => Some(m),
    }
}

/// The document that the bytes `body` parse to (meaningful where they parse).
pub open spec fn json_document(body: Seq<u8>) -> Value {
    json_parse(body)->Ok_0
}

/// What `serde_json::Value::get` gives for the string key `key`: the member
/// `key` of an object, `None` for a missing member or a value that is not an
/// object.
pub uninterp spec fn json_member(v: Value, key: Seq<char>) -> Option<Value>;

/// What `serde_json::Value::as_str` gives: the text of a string value, `None`
/// for any other value.
pub uninterp spec fn json_string(v: Value) -> Option<Seq<char>>;

/// What `serde_json::Value::as_bool` gives: the boolean of a boolean value,
/// `None` for any other value.
pub uninterp spec fn json_boolean(v: Value) -> Option<bool>;

/// The text of the top-level string member `key` of `v`, if it has one.
pub open spec fn str_member(v: Value, key: Seq<char>) -> Option<Seq<char>> {
    match json_member(v, key) {
        Some(m) => json_string(m),
        None => None,
    }
}

/// The top-level boolean member `key` of `v`, if it has one.
pub open spec fn bool_member(v: Value, key: Seq<char>) -> Option<bool> {
    match json_member(v, key) {
        Some(m) => json_boolean(m),
        None => None,
    }
}

/// Calls `serde_json::from_slice::<serde_json::Value>` on `body`, rendering a
/// parse error with its `Display` impl. The document, or the error text, is a
/// function of the bytes alone, named by `json_parse`.
#[verifier::external_body]
pub(crate) fn parse_json(body: &[u8]) -> (r: Result<Value, String>)
    ensures
        match r {
            Ok(v) => json_parse(body@) == Ok::<Value, Seq<char>>(v),
            Err(m) => json_parse(body@) == Err::<Value, Seq<char>>(m@),
        },
{
    match serde_json::from_slice::<Value>(body) {
        Ok(v) => Ok(v),
        Err(e) => Err(e.to_string()),
    }
}

/// Calls `serde_json::Value::get` with a string key: the member `key` of an
/// object, if any; named by `json_member`.
#[verifier::external_body]
pub(crate) fn json_get<'a>(v: &'a Value, key: &str) -> (r: Option<&'a Value>)
    ensures
        match r {
            Some(m) => json_member(*v, key@) == Some(*m),
            None => json_member(*v, key@) is None,
        },
{
    v.get(key)
}

/// Calls `serde_json::Value::as_str`: the text of a string value, if the
/// value is a string; named by `json_string`.
#[verifier::external_body]
pub(crate) fn json_as_str(v: &Value) -> (r: Option<String>)
    ensures
        match r {
            Some(s) => json_string(*v) == Some(s@),
            None => json_string(*v) is None,
        },
{
    v.as_str().map(String::from)
}

/// Calls `serde_json::Value::as_bool`: the boolean of a boolean value, if the
/// value is one; named by `json_boolean`.
#[verifier::external_body]
pub(crate) fn json_as_bool(v: &Value) -> (r: Option<bool>)
    ensures
        r == json_boolean(*v),
{
    v.as_bool()
}

/// The text of the top-level string member `key` of `v`, if there is one.
pub(crate) fn str_field(v: &Value, key: &str) -> (r: Option<String>)
    ensures
        match r {
            Some(s) => str_member(*v, key@) == Some(s@),
            None => str_member(*v, key@) is None,
        },
{
    match json_get(v, key) {
        Some(m) => json_as_str(m),
        None => None,
    }
}

/// The top-level boolean member `key` of `v`, if there is one.
pub(crate) fn bool_field(v: &Value, key: &str) -> (r: Option<bool>)
    ensures
        r == bool_member(*v, key@),
{
    match json_get(v, key) {
        Some(m) => json_as_bool(m),
        None => None,
    }
}

} // verus!
