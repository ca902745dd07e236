//! The JSON documents of `serde_json`, as far as a data source is read from one.
//!
//! Nothing in this file is proved. A [`serde_json::Value`] is opaque to the verifier, so each
//! way in which the library reads such a value has a name here for what it finds, and each
//! function below is believed to return just that. What is claimed with every name is that
//! the result depends on the value alone: the same value is read the same way every time.

use vstd::prelude::*;

verus! {

#[verifier::external_type_specification]
#[verifier::external_body]
pub struct ExValue(serde_json::Value);

#[verifier::external_type_specification]
#[verifier::external_body]
pub struct ExError(serde_json::Error);

/// The document that a text denotes; `None` for a text that is not JSON.
pub uninterp spec fn json_document(text: Seq<char>) -> Option<serde_json::Value>;

/// The keys of an object with their values, in the order in which the object hands them
/// out; `None` for a value that is no object.
pub uninterp spec fn json_entries(value: serde_json::Value) -> Option<
    Seq<(Seq<char>, serde_json::Value)>,
>;

/// What an object holds under a key; `None` where it has no such key, and for a value that
/// is no object.
pub uninterp spec fn json_member(value: serde_json::Value, key: Seq<char>) -> Option<
    serde_json::Value,
>;

/// Whether a value is null.
pub uninterp spec fn json_null(value: serde_json::Value) -> bool;

/// A number that is a non-negative integer of 64 bits; `None` for any other value.
pub uninterp spec fn json_u64(value: serde_json::Value) -> Option<u64>;

/// The decimal text of a number: the nearest double as Rust prints it, which is without an
/// exponent and without a fraction where there is none; `None` for a value that is no number.
pub uninterp spec fn json_decimal(value: serde_json::Value) -> Option<Seq<char>>;

/// The characters of a string; `None` for any other value.
pub uninterp spec fn json_str(value: serde_json::Value) -> Option<Seq<char>>;

/// The items of an array; `None` for any other value.
pub uninterp spec fn json_items(value: serde_json::Value) -> Option<Seq<serde_json::Value>>;

/// Calls `serde_json::from_str` for a `Value`. Believed: it returns the document that the
/// text denotes, and an error exactly where the text denotes none.
#[verifier::external_body]
pub(crate) fn parse(text: &str) -> (r: Result<serde_json::Value, serde_json::Error>)
    ensures
        r matches Ok(value) ==> json_document(text@) == Some(value),
        r is Err ==> json_document(text@) is None,
{
    serde_json::from_str::<serde_json::Value>(text)
}

/// Calls `Value::as_object` and collects the `iter` of the map. Believed: it returns the keys
/// and values of an object, in the map's order, and `None` exactly for a value that is no
/// object.
#[verifier::external_body]
pub(crate) fn entries<'a>(value: &'a serde_json::Value) -> (r: Option<
    Vec<(&'a String, &'a serde_json::Value)>,
>)
    ensures
        r matches Some(pairs) ==> json_entries(*value) == Some(
            pairs@.map_values(|p: (&String, &serde_json::Value)| (p.0@, *p.1)),
        ),
        r is None ==> json_entries(*value) is None,
{
    value.as_object().map(|object| object.iter().collect())
}

/// Calls `Value::get` with a key. Believed: it returns what an object holds under the key,
/// and `None` exactly where there is no such thing.
#[verifier::external_body]
pub(crate) fn member<'a>(value: &'a serde_json::Value, key: &str) -> (r: Option<
    &'a serde_json::Value,
>)
    ensures
        r matches Some(found) ==> json_member(*value, key@) == Some(*found),
        r is None ==> json_member(*value, key@) is None,
{
    value.get(key)
}

/// Calls `Value::as_f64` and prints the double. Believed: it returns the decimal text of a
/// number, and `None` exactly for a value that is no number.
#[verifier::external_body]
pub(crate) fn decimal_text(value: &serde_json::Value) -> (r: Option<String>)
    ensures
        r matches Some(text) ==> json_decimal(*value) == Some(text@),
        r is None ==> json_decimal(*value) is None,
{
    value.as_f64().map(|number| number.to_string())
}

/// `Value::is_null`. Believed: it tells whether the value is null.
pub assume_specification[ serde_json::Value::is_null ](value: &serde_json::Value) -> (r: bool)
    ensures
        r == json_null(*value),
;

/// `Value::as_u64`. Believed: it returns the value of a number that is a non-negative
/// integer of 64 bits, and `None` for any other value.
pub assume_specification[ serde_json::Value::as_u64 ](value: &serde_json::Value) -> (r: Option<
    u64,
>)
    ensures
        r == json_u64(*value),
;

/// `Value::as_str`. Believed: it returns the characters of a string, and `None` for any
/// other value.
pub assume_specification[ serde_json::Value::as_str ](value: &serde_json::Value) -> (r: Option<
    &str,
>)
    ensures
        r matches Some(s) ==> json_str(*value) == Some(s@),
        r is None ==> json_str(*value) is None,
;

/// `Value::as_array`. Believed: it returns the items of an array, and `None` for any other
/// value.
pub assume_specification[ serde_json::Value::as_array ](value: &serde_json::Value) -> (r: Option<
    &Vec<serde_json::Value>,
>)
    ensures
        r matches Some(items) ==> json_items(*value) == Some(items@),
        r is None ==> json_items(*value) is None,
;

} // verus!
