//! JSON documents as read through `serde_json`.
//!
//! A parsed document is kept as a `serde_json::Value`. Verified code never
//! looks inside one directly: it goes through the accessors specified here,
//! whose contracts are stated over [`Json`], a mathematical model of a JSON
//! value.

use vstd::prelude::*;

verus! {

/// Mathematical model of a JSON value.
///
/// Numbers are modelled only as far as the library reads them: a number that
/// `serde_json` holds as an integer carries its value, any other number is
/// `Real` with no payload.
pub enum Json {
    Null,
    Bool(bool),
    Integer(int),
    Real,
    Text(Seq<char>),
    Array(Seq<Json>),
    Object(Map<Seq<char>, Json>),
}

impl Json {
    /// The member stored under `key` if this is an object that has one,
    /// `Null` in every other case.
    pub open spec fn member(self, key: Seq<char>) -> Json {
        match self {
            Json::Object(members) => if members.contains_key(key) {
                members[key]
            } else {
                Json::Null
            },
            _ => Json::Null,
        }
    }

    /// The characters of a JSON string, `None` for any other value.
    pub open spec fn text(self) -> Option<Seq<char>> {
        match self {
            Json::Text(chars) => Some(chars),
            _ => None,
        }
    }

    /// The elements of a JSON array, `None` for any other value.
    pub open spec fn items(self) -> Option<Seq<Json>> {
        match self {
            Json::Array(items) => Some(items),
            _ => None,
        }
    }

    /// The value of an integer that fits in 64 signed bits, `None` for any
    /// other value.
    pub open spec fn int64(self) -> Option<i64> {
        match self {
            Json::Integer(n) => if i64::MIN <= n <= i64::MAX {
                Some(n as i64)
            } else {
                None
            },
            _ => None,
        }
    }
}

/// `serde_json::Value`, declared as an opaque type: the verifier sees nothing
/// inside a value, only what the accessors below say of it.
#[verifier::external_type_specification]
#[verifier::external_body]
pub struct ExValue(serde_json::Value);

/// The JSON value that a `serde_json::Value` holds.
pub uninterp spec fn json_of(value: serde_json::Value) -> Json;

/// What `serde_json::from_slice` makes of a byte string: the document it
/// holds, or the text of the error that the parser reports.
pub uninterp spec fn json_parse(bytes: Seq<u8>) -> Result<Json, Seq<char>>;

/// The models of a sequence of values, element by element.
pub open spec fn json_of_each(values: Seq<serde_json::Value>) -> Seq<Json> {
    values.map_values(|value: serde_json::Value| json_of(value))
}

/// `serde_json::from_slice` at type `Value`, with the error rendered by its
/// `Display` impl. The contract only names the outcome: it is the function
/// `json_parse` of the bytes.
#[verifier::external_body]
pub(crate) fn parse(bytes: &[u8]) -> (parsed: Result<serde_json::Value, String>)
    ensures
        match parsed {
            Ok(value) => json_parse(bytes@) == Ok::<Json, Seq<char>>(json_of(value)),
            Err(message) => json_parse(bytes@) == Err::<Json, Seq<char>>(message@),
        },
{
    match serde_json::from_slice::<serde_json::Value>(bytes) {
        Ok(value) => Ok(value),
        Err(error) => Err(error.to_string()),
    }
}

/// `value[key]`, the `Index<&str>` impl of `serde_json::Value`: the member
/// under `key` when `value` is an object that has it, otherwise a reference to
/// a null value. It never panics.
#[verifier::external_body]
pub(crate) fn member<'a>(value: &'a serde_json::Value, key: &str) -> (found: &'a serde_json::Value)
    ensures
        json_of(*found) == json_of(*value).member(key@),
{
    &value[key]
}

/// `Value::as_array`: the elements when the value is an array.
pub assume_specification<'a>[ serde_json::Value::as_array ](value: &'a serde_json::Value) -> (items:
    Option<&'a Vec<serde_json::Value>>)
    ensures
        match items {
            Some(items) => json_of(*value).items() == Some(json_of_each(items@)),
            None => json_of(*value).items() is None,
        },
;

/// `Value::as_str`: the characters when the value is a string.
pub assume_specification<'a>[ serde_json::Value::as_str ](value: &'a serde_json::Value) -> (text:
    Option<&'a str>)
    ensures
        match text {
            Some(text) => json_of(*value).text() == Some(text@),
            None => json_of(*value).text() is None,
        },
;

/// `Value::as_i64`: the number when the value is an integer that fits in
/// an `i64`.
pub assume_specification[ serde_json::Value::as_i64 ](value: &serde_json::Value) -> (number:
    Option<i64>)
    ensures
        number == json_of(*value).int64(),
;

/// `Value::is_null`.
pub assume_specification[ serde_json::Value::is_null ](value: &serde_json::Value) -> (null: bool)
    ensures
        null == (json_of(*value) is Null),
;

} // verus!
