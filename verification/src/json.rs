//! What the gateway reads of a JSON value: the members of an object, the text
//! of a string and the count of an unsigned number.

use serde_json::Value;
use vstd::prelude::*;

verus! {

#[verifier::external_type_specification]
#[verifier::external_body]
pub struct ExValue(serde_json::Value);

/// The members of a JSON object by key, as `serde_json::Value::get` finds
/// them. A value that is no object has none.
pub uninterp spec fn json_members(v: Value) -> Map<Seq<char>, Value>;

/// The text of a JSON string, as `serde_json::Value::as_str` gives it. A
/// value that is no string has none.
pub uninterp spec fn json_text(v: Value) -> Option<Seq<char>>;

/// The number held by a JSON number that was read as an integer from 0 to
/// `u64::MAX`, as `serde_json::Value::as_u64` gives it. Every other value has
/// none.
pub uninterp spec fn json_count(v: Value) -> Option<u64>;

/// Whether a JSON value is null: `serde_json::Value::Null` is, and no other
/// value.
pub uninterp spec fn json_is_null(v: Value) -> bool;

/// The member of `v` under `key`, if `v` is an object that has one.
pub open spec fn member_of(v: Value, key: Seq<char>) -> Option<Value> {
    if json_members(v).contains_key(key) {
        Some(json_members(v)[key])
    } else {
        None
    }
}

/// Whether `v` is an object with a member under `key`, whatever that member is.
pub open spec fn has_member(v: Value, key: Seq<char>) -> bool {
    member_of(v, key) is Some
}

/// The text of the member of `v` under `key`, where that member is a string.
pub open spec fn text_at(v: Value, key: Seq<char>) -> Option<Seq<char>> {
    match member_of(v, key) {
        Some(m) => json_text(m),
        None => None,
    }
}

/// The count of the member of `v` under `key`, where that member is an
/// unsigned integer.
pub open spec fn count_at(v: Value, key: Seq<char>) -> Option<u64> {
    match member_of(v, key) {
        Some(m) => json_count(m),
        None => None,
    }
}

/// The text of an optional string.
pub open spec fn texts(s: Option<String>) -> Option<Seq<char>> {
    match s {
        Some(t) => Some(t@),
        None => None,
    }
}

/// Null, as the gateway reads it: a value with no member, no text and no
/// count.
pub open spec fn is_blank(v: Value) -> bool {
    &&& json_is_null(v)
    &&& forall|key: Seq<char>| !json_members(v).contains_key(key)
    &&& json_text(v) is None
    &&& json_count(v) is None
}

/// `serde_json::Value::get` with a string index: the member under `key` when
/// the value is an object that holds the key, and nothing for a missing key or
/// for a value of any other kind.
#[verifier::external_body]
pub(crate) fn get<'a>(v: &'a Value, key: &str) -> (r: Option<&'a Value>)
    ensures
        match r {
            Some(m) => json_members(*v).contains_key(key@) && json_members(*v)[key@] == *m,
            None => !json_members(*v).contains_key(key@),
        },
{
    v.get(key)
}

/// `serde_json::Value::as_str`: the text when the value is a string, nothing
/// otherwise.
#[verifier::external_body]
pub(crate) fn as_str<'a>(v: &'a Value) -> (r: Option<&'a str>)
    ensures
        match r {
            Some(s) => json_text(*v) == Some(s@),
            None => json_text(*v) is None,
        },
{
    v.as_str()
}

/// `serde_json::Value::as_u64`: the number when the value is a number that
/// was read as an integer and fits `u64`, nothing otherwise.
#[verifier::external_body]
pub(crate) fn as_u64(v: &Value) -> (r: Option<u64>)
    ensures
        r == json_count(*v),
{
    v.as_u64()
}

/// `serde_json::Value::clone`: a value equal to the one it was made from.
#[verifier::external_body]
pub(crate) fn duplicate(v: &Value) -> (r: Value)
    ensures
        r == *v,
{
    v.clone()
}

/// `serde_json::Value::Null`, which is no object, no string and no number.
#[verifier::external_body]
pub(crate) fn null() -> (r: Value)
    ensures
        json_is_null(r),
        forall|key: Seq<char>| !json_members(r).contains_key(key),
        json_text(r) is None,
        json_count(r) is None,
{
    Value::Null
}

/// `serde_json::Value::from_iter` on two pairs of a key and an optional
/// string: an object of two members, each a string where there is a text and
/// null where there is none.
#[verifier::external_body]
pub(crate) fn object_of_two(
    first_key: &str,
    first: Option<String>,
    second_key: &str,
    second: Option<String>,
) -> (r: Value)
    requires
        first_key@ != second_key@,
    ensures
        forall|key: Seq<char>|
            json_members(r).contains_key(key) <==> key == first_key@ || key == second_key@,
        json_text(json_members(r)[first_key@]) == texts(first),
        json_text(json_members(r)[second_key@]) == texts(second),
        first is None ==> json_is_null(json_members(r)[first_key@]),
        second is None ==> json_is_null(json_members(r)[second_key@]),
{
    Value::from_iter([(first_key, first), (second_key, second)])
}

/// Whether `v` has a member under `key`.
pub fn contains(v: &Value, key: &str) -> (r: bool)
    ensures
        r == has_member(*v, key@),
{
    get(v, key).is_some()
}

/// The text of the string member of `v` under `key`.
pub fn text_member<'a>(v: &'a Value, key: &str) -> (r: Option<&'a str>)
    ensures
        match r {
            Some(s) => text_at(*v, key@) == Some(s@),
            None => text_at(*v, key@) is None,
        },
{
    match get(v, key) {
        Some(m) => as_str(m),
        None => None,
    }
}

/// The count of the unsigned member of `v` under `key`.
pub fn count_member(v: &Value, key: &str) -> (r: Option<u64>)
    ensures
        r == count_at(*v, key@),
{
    match get(v, key) {
        Some(m) => as_u64(m),
        None => None,
    }
}

} // verus!
