//! JSON documents, read with `serde_json`.
//!
//! A document is a value of `serde_json`, which this library does not look
//! into. What the functions of `serde_json` give for a value has a name
//! here, and the contracts of the functions that read a scene description
//! are stated over those names.

use crate::math::Scalar;
use serde_json::Value;
use vstd::prelude::*;

verus! {

/// `serde_json::Value`, a JSON value.
#[verifier::external_type_specification]
#[verifier::external_body]
pub struct ExValue(serde_json::Value);

/// `serde_json::Map`, the members of a JSON object.
#[verifier::external_type_specification]
#[verifier::external_body]
#[verifier::reject_recursive_types(K)]
#[verifier::reject_recursive_types(V)]
pub struct ExMap<K, V>(serde_json::Map<K, V>);

/// The value that a text stands for, where the text is a JSON document,
/// and the words of `serde_json` on what is wrong with it, where it is none.
pub uninterp spec fn document(text: Seq<char>) -> Result<Value, Seq<char>>;

/// The value that a JSON pointer leads to inside a value, if any.
pub uninterp spec fn pointed(value: Value, pointer: Seq<char>) -> Option<Value>;

/// The members of a value that is an object.
pub uninterp spec fn object(value: Value) -> Option<serde_json::Map<String, Value>>;

/// The member of an object under a key, if the object has one.
pub uninterp spec fn member(object: serde_json::Map<String, Value>, key: Seq<char>) -> Option<Value>;

/// The members of an object with their keys, in the order in which the
/// object hands them out.
pub uninterp spec fn members(object: serde_json::Map<String, Value>) -> Seq<(Seq<char>, Value)>;

/// The items of a value that is an array.
pub uninterp spec fn items(value: Value) -> Option<Seq<Value>>;

/// The characters of a value that is a string.
pub uninterp spec fn string(value: Value) -> Option<Seq<char>>;

/// A value that is a whole number from 0 up to the largest `u64`.
pub uninterp spec fn unsigned(value: Value) -> Option<u64>;

/// A value that is a whole number in the range of `i64`.
pub uninterp spec fn signed(value: Value) -> Option<i64>;

/// The encoding of a value that is a number, as the nearest binary64
/// number.
pub uninterp spec fn number(value: Value) -> Option<u64>;

/// `serde_json::from_str` for a `Value`, with the error turned into its
/// words. Believed of it: whether it succeeds, the value that it gives and
/// the words of its error depend on the text alone.
#[verifier::external_body]
pub(crate) fn from_str(text: &str) -> (r: Result<Value, String>)
    ensures
        match r {
            Ok(value) => document(text@) == Ok::<Value, Seq<char>>(value),
            Err(words) => document(text@) == Err::<Value, Seq<char>>(words@),
        },
{
    serde_json::from_str(text).map_err(|e: serde_json::Error| e.to_string())
}

/// `serde_json::Value::pointer`. Believed of it: what it gives depends on
/// the value and the pointer alone.
#[verifier::external_body]
pub(crate) fn pointer<'a>(value: &'a Value, path: &str) -> (r: Option<&'a Value>)
    ensures
        r.is_some() == pointed(*value, path@).is_some(),
        r.is_some() ==> Some(*r.unwrap()) == pointed(*value, path@),
{
    value.pointer(path)
}

/// `serde_json::Value::as_object`, which gives the members of an object and
/// nothing for any other value.
#[verifier::external_body]
pub(crate) fn as_object<'a>(value: &'a Value) -> (r: Option<&'a serde_json::Map<String, Value>>)
    ensures
        r.is_some() == object(*value).is_some(),
        r.is_some() ==> Some(*r.unwrap()) == object(*value),
{
    value.as_object()
}

/// `serde_json::Map::get`, which gives the member under a key.
#[verifier::external_body]
pub(crate) fn get<'a>(object: &'a serde_json::Map<String, Value>, key: &str) -> (r: Option<&'a Value>)
    ensures
        r.is_some() == member(*object, key@).is_some(),
        r.is_some() ==> Some(*r.unwrap()) == member(*object, key@),
{
    object.get(key)
}

/// `serde_json::Map::iter`, gathered into a list: each member with its key.
#[verifier::external_body]
pub(crate) fn iter<'a>(object: &'a serde_json::Map<String, Value>) -> (r: Vec<(&'a String, &'a Value)>)
    ensures
        r@.len() == members(*object).len(),
        forall|i: int|
            0 <= i < r@.len() ==> (#[trigger] r@[i]).0@ == members(*object)[i].0 && *r@[i].1
                == members(*object)[i].1,
{
    object.iter().collect()
}

/// `serde_json::Value::as_array`, which gives the items of an array and
/// nothing for any other value.
#[verifier::external_body]
pub(crate) fn as_array<'a>(value: &'a Value) -> (r: Option<&'a Vec<Value>>)
    ensures
        r.is_some() == items(*value).is_some(),
        r.is_some() ==> Some(r.unwrap()@) == items(*value),
{
    value.as_array()
}

/// `serde_json::Value::as_str`, which gives the characters of a string and
/// nothing for any other value.
#[verifier::external_body]
pub(crate) fn as_str<'a>(value: &'a Value) -> (r: Option<&'a str>)
    ensures
        r.is_some() == string(*value).is_some(),
        r.is_some() ==> Some(r.unwrap()@) == string(*value),
{
    value.as_str()
}

/// `serde_json::Value::as_u64`, which gives a whole number that fits and
/// nothing for any other value.
#[verifier::external_body]
pub(crate) fn as_u64(value: &Value) -> (r: Option<u64>)
    ensures
        r == unsigned(*value),
{
    value.as_u64()
}

/// `serde_json::Value::as_i64`, which gives a whole number that fits and
/// nothing for any other value.
#[verifier::external_body]
pub(crate) fn as_i64(value: &Value) -> (r: Option<i64>)
    ensures
        r == signed(*value),
{
    value.as_i64()
}

/// `serde_json::Value::as_f64`, which gives a number and nothing for any
/// other value. The number is handed on by its encoding.
#[verifier::external_body]
pub(crate) fn as_scalar(value: &Value) -> (r: Option<Scalar>)
    ensures
        r.is_some() == number(*value).is_some(),
        r.is_some() ==> Some(r.unwrap().bits) == number(*value),
{
    value.as_f64().map(|x| Scalar { bits: x.to_bits() })
}

} // verus!
