//! The JSON documents that providers answer with.
//!
//! Documents are `serde_json::Value`s. The library reads them through the
//! few accessors below; what each accessor yields is given a name, and the
//! decoders' contracts are stated over those names. Nothing in this file is
//! proved: each contract records what `serde_json` (or `std`) does.

use serde_json::Value;
use vstd::prelude::*;

verus! {

/// `serde_json::Value`, a JSON document or a part of one. Nothing of its
/// inside is known here but what the accessors below tell.
#[verifier::external_type_specification]
#[verifier::external_body]
pub struct ExValue(serde_json::Value);

/// `serde_json::Map`, the members of an object while it is put together.
#[verifier::external_type_specification]
#[verifier::external_body]
#[verifier::reject_recursive_types(K)]
#[verifier::reject_recursive_types(V)]
pub struct ExObject<K, V>(serde_json::Map<K, V>);

/// The members that an object under construction holds, by key.
pub uninterp spec fn json_entries(object: serde_json::Map<String, Value>) -> Map<
    Seq<char>,
    Value,
>;

/// The document that a body parses to, if its bytes are well-formed JSON.
pub uninterp spec fn json_parse(body: Seq<u8>) -> Option<Value>;

/// The member of an object under `key`; `None` if `v` is no object or has
/// no such member.
pub uninterp spec fn json_member(v: Value, key: Seq<char>) -> Option<Value>;

/// The elements of an array, in order; `None` if `v` is no array.
pub uninterp spec fn json_elements(v: Value) -> Option<Seq<Value>>;

/// The characters of a string; `None` if `v` is no string.
pub uninterp spec fn json_text(v: Value) -> Option<Seq<char>>;

/// The amount (as the bits of a double) of a number; `None` if `v` is no
/// number.
pub uninterp spec fn json_number(v: Value) -> Option<u64>;

/// The amount (as the bits of a double) that a decimal text denotes, if it
/// denotes one.
pub uninterp spec fn decimal_amount(text: Seq<char>) -> Option<u64>;

/// `serde_json::from_slice` at type `Value`: the parsed document, or
/// `None` where parsing reports an error. The result depends on the bytes
/// alone.
#[verifier::external_body]
pub(crate) fn parse_document(body: &[u8]) -> (r: Option<Value>)
    ensures
        r == json_parse(body@),
{
    serde_json::from_slice::<Value>(body).ok()
}

/// `Value::get` with a string index: a reference to the member under `key`
/// when `v` is an object that has one.
#[verifier::external_body]
pub(crate) fn member<'a>(v: &'a Value, key: &str) -> (r: Option<&'a Value>)
    ensures
        r is Some <==> json_member(*v, key@) is Some,
        r matches Some(m) ==> json_member(*v, key@) == Some(*m),
{
    v.get(key)
}

/// `Value::as_array`: the vector of elements when `v` is an array.
#[verifier::external_body]
pub(crate) fn elements<'a>(v: &'a Value) -> (r: Option<&'a Vec<Value>>)
    ensures
        r is Some <==> json_elements(*v) is Some,
        r matches Some(items) ==> json_elements(*v) == Some(items@),
{
    v.as_array()
}

/// `Value::as_str`: the string slice when `v` is a string.
#[verifier::external_body]
pub(crate) fn text<'a>(v: &'a Value) -> (r: Option<&'a str>)
    ensures
        r is Some <==> json_text(*v) is Some,
        r matches Some(s) ==> json_text(*v) == Some(s@),
{
    v.as_str()
}

/// `Value::as_f64`, with the double handed over as its bits: the amount
/// when `v` is a number.
#[verifier::external_body]
pub(crate) fn number(v: &Value) -> (r: Option<u64>)
    ensures
        r == json_number(*v),
{
    v.as_f64().map(|x| x.to_bits())
}

/// `str::parse` at the double type, with the double handed over as its
/// bits; `None` where the text is not a decimal number. The result depends
/// on the text alone. The type parsed is fixed by joining the result with
/// an absent `as_f64` result.
#[verifier::external_body]
pub(crate) fn parse_decimal(text: &str) -> (r: Option<u64>)
    ensures
        r == decimal_amount(text@),
{
    text.parse().ok().or(Value::Null.as_f64()).map(|x| x.to_bits())
}

/// `Value::String` of an owned copy: the string value that holds the
/// characters of `s`.
#[verifier::external_body]
pub(crate) fn string_value(s: &str) -> (v: Value)
    ensures
        json_text(v) == Some(s@),
{
    Value::String(s.to_owned())
}

/// `Map::new`: an object under construction, with no members.
#[verifier::external_body]
pub(crate) fn empty_object() -> (object: serde_json::Map<String, Value>)
    ensures
        json_entries(object).dom() == Set::<Seq<char>>::empty(),
{
    serde_json::Map::new()
}

/// `Map::insert`: sets the member under `key`, in place of any member that
/// was there.
#[verifier::external_body]
pub(crate) fn put(object: &mut serde_json::Map<String, Value>, key: &str, value: Value)
    ensures
        json_entries(*final(object)) == json_entries(*old(object)).insert(key@, value),
{
    object.insert(key.to_owned(), value);
}

/// `Value::Object`: the object value whose members are those that were
/// set.
#[verifier::external_body]
pub(crate) fn object_value(object: serde_json::Map<String, Value>) -> (v: Value)
    ensures
        forall|key: Seq<char>| #[trigger]
            json_member(v, key) == (if json_entries(object).contains_key(key) {
                Some(json_entries(object)[key])
            } else {
                None
            }),
{
    Value::Object(object)
}

} // verus!
