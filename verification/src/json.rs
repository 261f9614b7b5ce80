//! The boundary to `serde_json`.
//!
//! A `serde_json::Value` is opaque to the verifier. What the rest of the crate
//! reads off a value is given a name here, and each reading function of
//! `serde_json` is tied to its name without proof.

use serde_json::Value;
use vstd::prelude::*;

verus! {

#[verifier::external_type_specification]
#[verifier::external_body]
pub struct ExValue(serde_json::Value);

/// The elements of `v` in order where `v` is a JSON array, `None` for every
/// other kind of value.
pub uninterp spec fn array_items(v: Value) -> Option<Seq<Value>>;

/// The text of `v` where `v` is a JSON string, `None` for every other kind of
/// value.
pub uninterp spec fn string_text(v: Value) -> Option<Seq<char>>;

/// The number `v` where it is a JSON integer that fits `i64`, `None` for every
/// other value.
pub uninterp spec fn integer(v: Value) -> Option<i64>;

/// Whether `v` is JSON `null`.
pub uninterp spec fn null(v: Value) -> bool;

/// Whether `v` is a JSON number, integer or not.
pub uninterp spec fn number(v: Value) -> bool;

/// The member stored under `key` where `v` is a JSON object that has the key;
/// JSON `null` for a missing key and for a `v` that is no object.
pub uninterp spec fn member(v: Value, key: Seq<char>) -> Value;

/// `Value::as_array`: hands out the vector of an array value and `None` for
/// anything else. Trusted: the result is what `array_items` names.
pub assume_specification<'a>[ Value::as_array ](v: &'a Value) -> (r: Option<&'a Vec<Value>>)
    ensures
        match r {
            Some(items) => array_items(*v) == Some(items@),
            None => array_items(*v) is None,
        },
;

/// `Value::as_str`: hands out the text of a string value and `None` for
/// anything else. Trusted: the result is what `string_text` names.
pub assume_specification<'a>[ Value::as_str ](v: &'a Value) -> (r: Option<&'a str>)
    ensures
        match r {
            Some(text) => string_text(*v) == Some(text@),
            None => string_text(*v) is None,
        },
;

/// `Value::as_i64`: the integer of a number value that is an integer within
/// `i64`, `None` otherwise. Trusted: the result is what `integer` names.
pub assume_specification[ Value::as_i64 ](v: &Value) -> (r: Option<i64>)
    ensures
        r == integer(*v),
;

/// `Value::is_null`. Trusted: the result is what `null` names.
pub assume_specification[ Value::is_null ](v: &Value) -> (r: bool)
    ensures
        r == null(*v),
;

/// `Value::is_number`. Trusted: the result is what `number` names.
pub assume_specification[ Value::is_number ](v: &Value) -> (r: bool)
    ensures
        r == number(*v),
;

/// `Value::clone`. Trusted: the copy is the same JSON value.
pub assume_specification[ <Value as Clone>::clone ](v: &Value) -> (r: Value)
    ensures
        r == *v,
;

/// Indexing a value by a key, `v[key]`: a reference to the member of an
/// object, or to a JSON `null` where there is none. Trusted: the result is
/// what `member` names.
#[verifier::external_body]
pub(crate) fn member_of<'a>(v: &'a Value, key: &str) -> (r: &'a Value)
    ensures
        *r == member(*v, key@),
{
    &v[key]
}

/// The text of the member `key` of `v`, where that member is a string.
pub fn text_member<'a>(v: &'a Value, key: &str) -> (r: Option<&'a str>)
    ensures
        match r {
            Some(text) => string_text(member(*v, key@)) == Some(text@),
            None => string_text(member(*v, key@)) is None,
        },
{
    member_of(v, key).as_str()
}

/// The member `key` of `v` as an integer, where it is one that fits `i64`.
pub fn integer_member(v: &Value, key: &str) -> (r: Option<i64>)
    ensures
        r == integer(member(*v, key@)),
{
    member_of(v, key).as_i64()
}

/// Whether the member `key` of `v` is a number.
pub fn number_member(v: &Value, key: &str) -> (r: bool)
    ensures
        r == number(member(*v, key@)),
{
    member_of(v, key).is_number()
}

} // verus!
