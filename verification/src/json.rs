//! JSON values and objects, as `serde_json` holds them.
//!
//! Everything in this file is believed, not proved. The types are opaque, the
//! spec functions without a body name what a `serde_json` function returns,
//! and each executable function states what the function it calls is
//! documented to do.
use serde_json::Value;
use vstd::prelude::*;

verus! {

/// `serde_json::Value`: one JSON value.
#[verifier::external_type_specification]
#[verifier::external_body]
pub struct ExValue(serde_json::Value);

/// `serde_json::Map`: the members of a JSON object.
#[verifier::external_type_specification]
#[verifier::external_body]
#[verifier::reject_recursive_types(K)]
#[verifier::reject_recursive_types(V)]
pub struct ExMap<K, V>(serde_json::Map<K, V>);

/// `serde_json::Error`: why a text could not be read or a value not be written.
#[verifier::external_type_specification]
#[verifier::external_body]
pub struct ExError(serde_json::Error);

/// The members of an object: each key with its value.
pub uninterp spec fn entries(m: serde_json::Map<String, Value>) -> Map<Seq<char>, Value>;

/// The members of the object that `serde_json::from_slice` reads from a text,
/// or `None` where it reports an error.
pub uninterp spec fn parsed_object(text: Seq<char>) -> Option<Map<Seq<char>, Value>>;

/// The text that `serde_json::to_string` writes for an object with these
/// members, or `None` where it reports an error.
pub uninterp spec fn wire_text(members: Map<Seq<char>, Value>) -> Option<Seq<char>>;

/// The value that `Value::from` makes of a string.
pub uninterp spec fn text_value(s: Seq<char>) -> Value;

/// The value that `Value::from` makes of an unsigned integer.
pub uninterp spec fn number_value(n: u64) -> Value;

/// The value that `Value::from` makes of an object with these members.
pub uninterp spec fn object_value(members: Map<Seq<char>, Value>) -> Value;

/// What `Value::as_str` returns: the text of a JSON string, `None` for any
/// other value.
pub uninterp spec fn value_text(v: Value) -> Option<Seq<char>>;

/// What `Value::as_u64` returns: a JSON number that is an integer from 0 to
/// `u64::MAX`, `None` for any other value.
pub uninterp spec fn value_number(v: Value) -> Option<u64>;

/// What `Value::as_object` returns: the members of a JSON object, `None` for
/// any other value.
pub uninterp spec fn value_object(v: Value) -> Option<Map<Seq<char>, Value>>;

/// What `Value::as_array` returns: the items of a JSON array, `None` for any
/// other value.
pub uninterp spec fn value_items(v: Value) -> Option<Seq<Value>>;

/// Whether a text holds no line feed.
pub open spec fn one_line(text: Seq<char>) -> bool {
    !text.contains('\n')
}

/// The members of an object that has none.
pub open spec fn no_entries() -> Map<Seq<char>, Value> {
    Map::empty()
}

/// `serde_json::from_slice`, asked for an object, on the bytes of `line`: the
/// object that the whole text denotes, or the error.
#[verifier::external_body]
pub(crate) fn parse_object(line: &str) -> (r: Result<
    serde_json::Map<String, Value>,
    serde_json::Error,
>)
    ensures
        match r {
            Ok(m) => parsed_object(line@) == Some(entries(m)),
            Err(_) => parsed_object(line@).is_none(),
        },
{
    serde_json::from_slice(line.as_bytes())
}

/// `serde_json::to_string` on an object: its text, or the error. The text
/// holds no line feed: the compact form has no white space between its
/// tokens, and a line feed inside a string is written as an escape.
#[verifier::external_body]
pub(crate) fn to_text(m: &serde_json::Map<String, Value>) -> (r: Result<String, serde_json::Error>)
    ensures
        match r {
            Ok(s) => wire_text(entries(*m)) == Some(s@) && one_line(s@),
            Err(_) => wire_text(entries(*m)).is_none(),
        },
{
    serde_json::to_string(m)
}

/// `Map::new`: an object without members.
#[verifier::external_body]
pub(crate) fn new_object() -> (r: serde_json::Map<String, Value>)
    ensures
        entries(r) == no_entries(),
{
    serde_json::Map::new()
}

/// `Map::insert`: the object holds `value` under `key`, in place of what it
/// held there; its other members are unchanged.
#[verifier::external_body]
pub(crate) fn put(m: &mut serde_json::Map<String, Value>, key: String, value: Value)
    ensures
        entries(*final(m)) == entries(*old(m)).insert(key@, value),
{
    m.insert(key, value);
}

/// `Map::remove`: the member under `key` leaves the object and is returned;
/// `None`, and nothing changes, where there is none.
#[verifier::external_body]
pub(crate) fn take(m: &mut serde_json::Map<String, Value>, key: &str) -> (r: Option<Value>)
    ensures
        entries(*final(m)) == entries(*old(m)).remove(key@),
        r == member(entries(*old(m)), key@),
{
    m.remove(key)
}

/// `Map::get`: the value under `key`, or `None` where there is none.
#[verifier::external_body]
pub(crate) fn lookup<'a>(m: &'a serde_json::Map<String, Value>, key: &str) -> (r: Option<
    &'a Value,
>)
    ensures
        member(entries(*m), key@) == match r {
            Some(v) => Some(*v),
            None => None,
        },
{
    m.get(key)
}

/// `Extend::extend` of `Map`, with a copy of each member of `src`: every
/// member of `src` is inserted into `dst`, in place of what `dst` held under
/// its key.
#[verifier::external_body]
pub(crate) fn merge(dst: &mut serde_json::Map<String, Value>, src: &serde_json::Map<String, Value>)
    ensures
        entries(*final(dst)) == entries(*old(dst)).union_prefer_right(entries(*src)),
{
    dst.extend(src.clone());
}

/// `Value::from` on a `String`: the JSON string with that text.
#[verifier::external_body]
pub(crate) fn from_text(s: String) -> (v: Value)
    ensures
        v == text_value(s@),
{
    Value::from(s)
}

/// `Value::from` on a `u64`: the JSON number of that value.
#[verifier::external_body]
pub(crate) fn from_number(n: u64) -> (v: Value)
    ensures
        v == number_value(n),
{
    Value::from(n)
}

/// `Value::from` on a `Map`: the JSON object with those members.
#[verifier::external_body]
pub(crate) fn from_object(m: serde_json::Map<String, Value>) -> (v: Value)
    ensures
        v == object_value(entries(m)),
{
    Value::from(m)
}

/// `Value::as_str`: the text of a JSON string, and `None` for a value that is
/// no string.
#[verifier::external_body]
pub(crate) fn as_text<'a>(v: &'a Value) -> (r: Option<&'a str>)
    ensures
        value_text(*v) == match r {
            Some(s) => Some(s@),
            None => None,
        },
{
    v.as_str()
}

/// `Value::as_u64`: the number, where the value is an integer that fits in a
/// `u64`, and `None` for any other value.
#[verifier::external_body]
pub(crate) fn as_number(v: &Value) -> (r: Option<u64>)
    ensures
        r == value_number(*v),
{
    v.as_u64()
}

/// `Value::as_object`, then `Option::cloned`: a copy of the object with the
/// same members, and `None` for a value that is no object.
#[verifier::external_body]
pub(crate) fn as_object(v: &Value) -> (r: Option<serde_json::Map<String, Value>>)
    ensures
        value_object(*v) == match r {
            Some(m) => Some(entries(m)),
            None => None,
        },
{
    v.as_object().cloned()
}

/// `Value::as_array`: the items of a JSON array in their order, and `None`
/// for a value that is no array.
#[verifier::external_body]
pub(crate) fn as_items<'a>(v: &'a Value) -> (r: Option<&'a Vec<Value>>)
    ensures
        value_items(*v) == match r {
            Some(items) => Some(items@),
            None => None,
        },
{
    v.as_array()
}

/// The value under `key` among `members`, if there is one.
pub open spec fn member(members: Map<Seq<char>, Value>, key: Seq<char>) -> Option<Value> {
    if members.dom().contains(key) {
        Some(members[key])
    } else {
        None
    }
}

/// The text of the JSON string under `key`, if there is one.
pub open spec fn text_at(members: Map<Seq<char>, Value>, key: Seq<char>) -> Option<Seq<char>> {
    match member(members, key) {
        Some(v) => value_text(v),
        None => None,
    }
}

/// The unsigned integer under `key`, if there is one.
pub open spec fn number_at(members: Map<Seq<char>, Value>, key: Seq<char>) -> Option<u64> {
    match member(members, key) {
        Some(v) => value_number(v),
        None => None,
    }
}

/// The members of the JSON object under `key`, if there is one.
pub open spec fn object_at(members: Map<Seq<char>, Value>, key: Seq<char>) -> Option<
    Map<Seq<char>, Value>,
> {
    match member(members, key) {
        Some(v) => value_object(v),
        None => None,
    }
}

/// The items of the JSON array under `key`, if there is one.
pub open spec fn items_at(members: Map<Seq<char>, Value>, key: Seq<char>) -> Option<Seq<Value>> {
    match member(members, key) {
        Some(v) => value_items(v),
        None => None,
    }
}

} // verus!
