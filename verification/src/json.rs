//! The inner layer of a code: a JSON record.
//!
//! Writing one is framing: the record's shape and key names are fixed here,
//! and only the quoting of a string is `serde_json`'s. Reading one goes the
//! other way: `serde_json` parses the bytes into its `Value`, and the shape
//! that a deck record must have is tested here, member by member.

use serde_json::Value;
use vstd::prelude::*;

verus! {

/// `serde_json::Value`: a parsed JSON document, or a part of one.
#[verifier::external_type_specification]
#[verifier::external_body]
pub struct ExValue(serde_json::Value);

/// `serde_json::Error`, carried through unopened.
#[verifier::external_type_specification]
#[verifier::external_body]
pub struct ExJsonError(serde_json::Error);

/// The JSON string literal that `serde_json::to_string` writes for `text`,
/// quotes and escapes included; `None` where it gives an error.
pub uninterp spec fn json_quoted(text: Seq<char>) -> Option<Seq<char>>;

/// The value that `serde_json::from_slice` parses `bytes` into; `None` where
/// it gives an error.
pub uninterp spec fn json_parsed(bytes: Seq<u8>) -> Option<Value>;

/// The member of `value` under `key`, as `Value::get` finds it: `None` where
/// `value` is no object or has no such key.
pub uninterp spec fn json_member(value: Value, key: Seq<char>) -> Option<Value>;

/// The text of `value`, as `Value::as_str` gives it: `None` where `value` is
/// no string.
pub uninterp spec fn json_string(value: Value) -> Option<Seq<char>>;

/// The elements of `value` in order, as `Value::as_array` gives them: `None`
/// where `value` is no array.
pub uninterp spec fn json_items(value: Value) -> Option<Seq<Value>>;

/// Calls `serde_json::to_string` on a string slice.
///
/// Believed of it: the outcome depends on `text` alone.
#[verifier::external_body]
pub(crate) fn quote(text: &str) -> (r: Result<String, serde_json::Error>)
    ensures
        match r {
            Ok(quoted) => json_quoted(text@) == Some(quoted@),
            Err(_) => json_quoted(text@) is None,
        },
{
    serde_json::to_string(text)
}

/// Calls `serde_json::from_slice` for a `Value`.
///
/// Believed of it: the outcome depends on `bytes` alone.
#[verifier::external_body]
pub(crate) fn parse(bytes: &[u8]) -> (r: Result<Value, serde_json::Error>)
    ensures
        match r {
            Ok(value) => json_parsed(bytes@) == Some(value),
            Err(_) => json_parsed(bytes@) is None,
        },
{
    serde_json::from_slice(bytes)
}

/// Calls `Value::get` with a string key.
#[verifier::external_body]
pub(crate) fn member<'a>(value: &'a Value, key: &str) -> (r: Option<&'a Value>)
    ensures
        match r {
            Some(found) => json_member(*value, key@) == Some(*found),
            None => json_member(*value, key@) is None,
        },
{
    value.get(key)
}

/// Calls `Value::as_str`.
#[verifier::external_body]
pub(crate) fn string_of<'a>(value: &'a Value) -> (r: Option<&'a str>)
    ensures
        match r {
            Some(text) => json_string(*value) == Some(text@),
            None => json_string(*value) is None,
        },
{
    value.as_str()
}

/// Calls `Value::as_array`.
#[verifier::external_body]
pub(crate) fn items_of<'a>(value: &'a Value) -> (r: Option<&'a Vec<Value>>)
    ensures
        match r {
            Some(items) => json_items(*value) == Some(items@),
            None => json_items(*value) is None,
        },
{
    value.as_array()
}

} // verus!
