//! JSON texts, read with serde_json.
//!
//! A parsed document is carried as serde_json's own `Value`, which the
//! verifier cannot look into. What the contracts need to say of one is said
//! through four names: the document that a text parses to, the member under a
//! key, the text of a string and the number of an integer.
use serde_json::Value;
use vstd::prelude::*;

verus! {

/// serde_json's `Value`: a parsed JSON value, carried through unopened.
#[verifier::external_type_specification]
#[verifier::external_body]
pub struct ExValue(serde_json::Value);

/// serde_json's `Error`: why a text is no JSON, carried through unopened.
#[verifier::external_type_specification]
#[verifier::external_body]
pub struct ExJsonError(serde_json::Error);

/// The value that `serde_json::from_str` reads from `text`; `None` where it
/// refuses the text.
pub uninterp spec fn json_document(text: Seq<char>) -> Option<Value>;

/// The value that indexing `value` with `key` gives: the member under that
/// key of an object, `null` for anything else.
pub uninterp spec fn json_member(value: Value, key: Seq<char>) -> Value;

/// The text of `value` where it is a JSON string, as `Value::as_str` gives it.
pub uninterp spec fn json_text(value: Value) -> Option<Seq<char>>;

/// The number of `value` where it is an integer that an `i64` holds, as
/// `Value::as_i64` gives it.
pub uninterp spec fn json_integer(value: Value) -> Option<i64>;

/// Calls `serde_json::from_str` for a `Value`. Trusted: it returns `Ok` with
/// the document named by `json_document`, and `Err` exactly where there is
/// none.
#[verifier::external_body]
pub(crate) fn parse(text: &str) -> (parsed: Result<Value, serde_json::Error>)
    ensures
        match parsed {
            Ok(value) => json_document(text@) == Some(value),
            Err(_) => json_document(text@) is None,
        },
{
    serde_json::from_str(text)
}

/// Indexes a `Value` with a string key (`Index<&str> for Value`), which
/// never panics. Trusted: the result is the value named by `json_member`.
#[verifier::external_body]
pub(crate) fn member<'a>(value: &'a Value, key: &str) -> (found: &'a Value)
    ensures
        *found == json_member(*value, key@),
{
    &value[key]
}

/// `Value::as_str`: the text of a string, `None` for any other value.
pub assume_specification[ serde_json::Value::as_str ](value: &Value) -> (text: Option<&str>)
    ensures
        match text {
            Some(s) => json_text(*value) == Some(s@),
            None => json_text(*value) is None,
        },
;

/// `Value::as_i64`: the number of an integer that fits, `None` otherwise.
pub assume_specification[ serde_json::Value::as_i64 ](value: &Value) -> (number: Option<i64>)
    ensures
        number == json_integer(*value),
;

} // verus!
