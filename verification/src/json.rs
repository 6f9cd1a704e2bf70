//! JSON documents as serde_json holds them, and what the rest of the crate
//! believes of them.
//!
//! A `serde_json::Value` is opaque to the verifier. Its content is named by
//! [`json_of`], and each function below that reads a value says over that
//! name what serde_json's source shows of the call it makes. None of these
//! statements is proved here: they are the trusted base of the crate's
//! reading of responses.

use vstd::prelude::*;

verus! {

/// The content of a JSON document.
///
/// A number is held as the bit pattern of the IEEE 754 double that
/// `serde_json::Value::as_f64` gives for it.
pub enum Json {
    Null,
    Bool(bool),
    Number(u64),
    Text(Seq<char>),
    Array(Seq<Json>),
    Object(Map<Seq<char>, Json>),
}

impl Json {
    /// The value under `key` of an object; `Null` where there is no such key
    /// or `self` is no object.
    pub open spec fn member(self, key: Seq<char>) -> Json {
        match self {
            Json::Object(fields) if fields.contains_key(key) => fields[key],
            _ => Json::Null,
        }
    }

    /// The value at `index` of an array; `Null` where the index is out of
    /// range or `self` is no array.
    pub open spec fn element(self, index: int) -> Json {
        match self {
            Json::Array(items) if 0 <= index < items.len() => items[index],
            _ => Json::Null,
        }
    }

    /// The bit pattern of a number; `None` for every other kind of value.
    pub open spec fn number(self) -> Option<u64> {
        match self {
            Json::Number(bits) => Some(bits),
            _ => None,
        }
    }
}

/// `serde_json::Value`, a parsed JSON document or a part of one.
#[verifier::external_type_specification]
#[verifier::external_body]
pub struct ExValue(serde_json::Value);

/// `serde_json::Error`, the reason why bytes were rejected.
#[verifier::external_type_specification]
#[verifier::external_body]
pub struct ExError(serde_json::Error);

/// What a `serde_json::Value` holds.
pub uninterp spec fn json_of(value: serde_json::Value) -> Json;

/// The document that serde_json reads from `body`; `None` where it rejects
/// the bytes.
pub uninterp spec fn decoded(body: Seq<u8>) -> Option<Json>;

/// Calls `serde_json::from_slice` for a `serde_json::Value`.
///
/// Trusted: whether the bytes are accepted, and the value that is built from
/// them, depend on the bytes alone. The parser bounds its own recursion and
/// reports every defect of the input as an error.
#[verifier::external_body]
pub(crate) fn from_slice(body: &[u8]) -> (outcome: Result<serde_json::Value, serde_json::Error>)
    ensures
        match outcome {
            Ok(document) => decoded(body@) == Some(json_of(document)),
            Err(_) => decoded(body@) is None,
        },
{
    serde_json::from_slice(body)
}

/// Calls the `Display` impl of `serde_json::Error` through `to_string`.
///
/// Nothing is claimed of the message.
#[verifier::external_body]
pub(crate) fn error_message(error: &serde_json::Error) -> (message: String) {
    error.to_string()
}

/// Indexes a `serde_json::Value` by a string, as in `value["key"]`.
///
/// Trusted: the `Index` impl looks the key up where the value is an object,
/// and refers to a null value where it is none or has no such key. It never
/// panics.
#[verifier::external_body]
pub(crate) fn index_by_key<'a>(value: &'a serde_json::Value, key: &str) -> (found:
    &'a serde_json::Value)
    ensures
        json_of(*found) == json_of(*value).member(key@),
{
    &value[key]
}

/// Indexes a `serde_json::Value` by a position, as in `value[0]`.
///
/// Trusted: the `Index` impl takes the item at that position where the value
/// is an array, and refers to a null value where it is none or is too short.
/// It never panics.
#[verifier::external_body]
pub(crate) fn index_by_position<'a>(value: &'a serde_json::Value, index: usize) -> (found:
    &'a serde_json::Value)
    ensures
        json_of(*found) == json_of(*value).element(index as int),
{
    &value[index]
}

/// Calls `serde_json::Value::as_array`.
///
/// Trusted: it hands out the vector of an array as it is, and `None` for
/// every other kind of value.
#[verifier::external_body]
pub(crate) fn as_array<'a>(value: &'a serde_json::Value) -> (list: Option<
    &'a Vec<serde_json::Value>,
>)
    ensures
        match list {
            Some(items) => json_of(*value) == Json::Array(
                items@.map_values(|item: serde_json::Value| json_of(item)),
            ),
            None => !(json_of(*value) is Array),
        },
{
    value.as_array()
}

/// Calls `serde_json::Value::as_f64` and takes the bits of the double.
///
/// Trusted: it gives a double for every number, whether the document wrote
/// it as an integer or with a fraction, and `None` for every other kind of
/// value.
#[verifier::external_body]
pub(crate) fn as_number_bits(value: &serde_json::Value) -> (bits: Option<u64>)
    ensures
        bits == json_of(*value).number(),
{
    match value.as_f64() {
        Some(number) => Some(number.to_bits()),
        None => None,
    }
}

} // verus!
