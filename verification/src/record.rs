//! Reading one field of a provider's record, with the fallback that applies
//! when the field is absent or of another type.

use crate::amount::ZERO_BITS;
use crate::json::{
    decimal_amount, elements, json_elements, json_member, json_number, json_text, member, number,
    parse_decimal, text,
};
use serde_json::Value;
use vstd::prelude::*;

verus! {

/// The string under `key`, if `rec` is an object with a string there.
pub open spec fn text_at(rec: Value, key: Seq<char>) -> Option<Seq<char>> {
    match json_member(rec, key) {
        Some(m) => json_text(m),
        None => None,
    }
}

/// The amount that a value carries: that of a number, or the one that a
/// string denotes in decimal. Any other value, and a string that denotes no
/// number, carries zero.
pub open spec fn amount_of(v: Value) -> u64 {
    match json_number(v) {
        Some(bits) => bits,
        None => match json_text(v) {
            Some(t) => match decimal_amount(t) {
                Some(bits) => bits,
                None => ZERO_BITS,
            },
            None => ZERO_BITS,
        },
    }
}

/// The amount under `key`, in either encoding, or zero.
pub open spec fn amount_at(rec: Value, key: Seq<char>) -> u64 {
    match json_member(rec, key) {
        Some(m) => amount_of(m),
        None => ZERO_BITS,
    }
}

/// The string under `key`, or `"Unknown"`.
pub open spec fn identifier_at(rec: Value, key: Seq<char>) -> Seq<char> {
    match text_at(rec, key) {
        Some(t) => t,
        None => "Unknown"@,
    }
}

/// The elements of the array under `key`, if `rec` is an object with an
/// array there.
pub open spec fn array_at(rec: Value, key: Seq<char>) -> Option<Seq<Value>> {
    match json_member(rec, key) {
        Some(m) => json_elements(m),
        None => None,
    }
}

/// The elements of the array under `key`, or no elements.
pub open spec fn elements_at(rec: Value, key: Seq<char>) -> Seq<Value> {
    match array_at(rec, key) {
        Some(items) => items,
        None => Seq::empty(),
    }
}

/// Reads the array under `key`.
pub fn array_field<'a>(rec: &'a Value, key: &str) -> (r: Option<&'a Vec<Value>>)
    ensures
        r is Some <==> array_at(*rec, key@) is Some,
        r matches Some(items) ==> array_at(*rec, key@) == Some(items@),
{
    match member(rec, key) {
        Some(m) => elements(m),
        None => None,
    }
}

/// Reads the string under `key`.
pub fn text_field<'a>(rec: &'a Value, key: &str) -> (r: Option<&'a str>)
    ensures
        r is Some <==> text_at(*rec, key@) is Some,
        r matches Some(s) ==> text_at(*rec, key@) == Some(s@),
{
    match member(rec, key) {
        Some(m) => text(m),
        None => None,
    }
}

/// Reads the amount that a value carries, whether it is a number or a
/// string-encoded number; zero for anything else.
pub fn amount_value(v: &Value) -> (bits: u64)
    ensures
        bits == amount_of(*v),
{
    match number(v) {
        Some(bits) => bits,
        None => match text(v) {
            Some(t) => match parse_decimal(t) {
                Some(bits) => bits,
                None => ZERO_BITS,
            },
            None => ZERO_BITS,
        },
    }
}

/// Reads the amount under `key`; zero when there is no member, or when it
/// carries no amount.
pub fn amount_field(rec: &Value, key: &str) -> (bits: u64)
    ensures
        bits == amount_at(*rec, key@),
{
    match member(rec, key) {
        Some(m) => amount_value(m),
        None => ZERO_BITS,
    }
}

/// Reads the identifier under `key`; `"Unknown"` when there is no string.
pub fn identifier_field(rec: &Value, key: &str) -> (id: String)
    ensures
        id@ == identifier_at(*rec, key@),
{
    match text_field(rec, key) {
        Some(t) => t.to_owned(),
        None => "Unknown".to_owned(),
    }
}

} // verus!
