use vstd::prelude::*;
use serde_json::Error as JsonError;

verus! {

/// `serde_json::Value`, carried through the library unopened.
#[verifier::external_type_specification]
#[verifier::external_body]
pub struct ExJsonValue(serde_json::Value);

/// `serde_json::Error`, the error of a failed parse.
#[verifier::external_type_specification]
#[verifier::external_body]
pub struct ExJsonError(JsonError);

/// What `serde_json::Value::get` returns for a string key: the member of an
/// object stored under `key`, or `None`.
pub uninterp spec fn json_member(v: serde_json::Value, key: Seq<char>) -> Option<serde_json::Value>;

/// What `serde_json::Value::as_str` returns: the text of a JSON string, or
/// `None` for any other kind of value.
pub uninterp spec fn json_text(v: serde_json::Value) -> Option<Seq<char>>;

/// What `serde_json::from_str::<Value>` gives for the text `s`: the parsed
/// value, or `None` where `s` is not one JSON document.
pub uninterp spec fn json_parse_text(s: Seq<char>) -> Option<serde_json::Value>;

/// What `serde_json::from_slice::<Value>` gives for the bytes `b`: the
/// parsed value, or `None` where `b` is not one JSON document.
pub uninterp spec fn json_parse_bytes(b: Seq<u8>) -> Option<serde_json::Value>;

/// `<serde_json::Value as Clone>::clone`, which `derive(Clone)` writes for
/// the enum: the copy equals the original.
pub assume_specification[ <serde_json::Value as Clone>::clone ](v: &serde_json::Value) -> (r: serde_json::Value)
    ensures
        r == *v,
;

/// Calls `serde_json::Value::get` with a string key. Claimed: the result is
/// the named member of `v` under `key`.
#[verifier::external_body]
pub(crate) fn json_get<'a>(v: &'a serde_json::Value, key: &str) -> (r: Option<&'a serde_json::Value>)
    ensures
        match r {
            Some(m) => json_member(*v, key@) == Some(*m),
            None => json_member(*v, key@) is None,
        },
{
    v.get(key)
}

/// Calls `serde_json::Value::as_str`. Claimed: the result is the named text
/// of `v`.
#[verifier::external_body]
pub(crate) fn json_as_str<'a>(v: &'a serde_json::Value) -> (r: Option<&'a str>)
    ensures
        match r {
            Some(s) => json_text(*v) == Some(s@),
            None => json_text(*v) is None,
        },
{
    v.as_str()
}

/// Calls `serde_json::from_str` for a `Value`. Claimed: it succeeds exactly
/// when the named parse of `s` does, with that value.
#[verifier::external_body]
pub(crate) fn json_from_str(s: &str) -> (r: Result<serde_json::Value, JsonError>)
    ensures
        match r {
            Ok(v) => json_parse_text(s@) == Some(v),
            Err(_) => json_parse_text(s@) is None,
        },
{
    serde_json::from_str::<serde_json::Value>(s)
}

/// Calls `serde_json::from_slice` for a `Value`. Claimed: it succeeds
/// exactly when the named parse of `b` does, with that value.
#[verifier::external_body]
pub(crate) fn json_from_slice(b: &[u8]) -> (r: Result<serde_json::Value, JsonError>)
    ensures
        match r {
            Ok(v) => json_parse_bytes(b@) == Some(v),
            Err(_) => json_parse_bytes(b@) is None,
        },
{
    serde_json::from_slice::<serde_json::Value>(b)
}

} // verus!
