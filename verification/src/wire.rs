//! The boundary with `serde_json`: its parser and printer, and the conversion
//! between its value tree and [`Json`]. Nothing in this file is proved; each
//! item says what it takes on trust.

use vstd::prelude::*;
use crate::json::{Entry, Json, JsonModel, well_formed};

verus! {

/// `serde_json::Number`, a JSON number. Its inside stays hidden: the library
/// carries numbers through and never reads them.
#[verifier::external_type_specification]
#[verifier::external_body]
pub struct ExNumber(serde_json::Number);

/// `serde_json::Value`, the parser's own tree of a JSON text.
#[verifier::external_type_specification]
#[verifier::external_body]
pub struct ExValue(serde_json::Value);

/// `serde_json::Error`, the parser's report of a text it could not read.
#[verifier::external_type_specification]
#[verifier::external_body]
pub struct ExError(serde_json::Error);

/// The JSON value that a `serde_json::Value` holds.
pub uninterp spec fn value_model(value: serde_json::Value) -> JsonModel;

/// What `serde_json::from_str` reads from a text: the value, or `None` where
/// it reports an error.
pub uninterp spec fn text_value(text: Seq<char>) -> Option<JsonModel>;

/// What `serde_json::from_reader` reads from a run of bytes: the value, or
/// `None` where it reports an error.
pub uninterp spec fn bytes_value(bytes: Seq<u8>) -> Option<JsonModel>;

/// What a `serde_json::Value` holds that was made of a JSON value: the same,
/// but for the members of an object, which `serde_json::Map` keeps by key.
pub uninterp spec fn stored(json: JsonModel) -> JsonModel;

/// The text that `to_string` of `serde_json::Value` prints for what the value
/// holds.
pub uninterp spec fn printed(json: JsonModel) -> Seq<char>;

/// Calls `serde_json::from_str` for a `serde_json::Value`. Trusted: the
/// outcome depends on the text alone.
#[verifier::external_body]
pub(crate) fn parse_text(text: &str) -> (res: Result<serde_json::Value, serde_json::Error>)
    ensures
        match res {
            Ok(value) => text_value(text@) == Some(value_model(value)),
            Err(_) => text_value(text@) is None,
        },
{
    serde_json::from_str::<serde_json::Value>(text)
}

/// Calls `serde_json::from_reader` for a `serde_json::Value`, with the bytes
/// as the reader. Trusted: the outcome depends on the bytes alone.
#[verifier::external_body]
pub(crate) fn parse_bytes(bytes: &[u8]) -> (res: Result<serde_json::Value, serde_json::Error>)
    ensures
        match res {
            Ok(value) => bytes_value(bytes@) == Some(value_model(value)),
            Err(_) => bytes_value(bytes@) is None,
        },
{
    serde_json::from_reader::<&[u8], serde_json::Value>(bytes)
}

/// Moves a `serde_json::Value` into a [`Json`], variant by variant; the
/// members of an object come in the order in which `serde_json::Map` hands
/// them out. Trusted: the result holds what the value held, and no object in
/// it holds a key twice, as `serde_json::Map` is a map.
#[verifier::external_body]
pub(crate) fn json_of_value(value: serde_json::Value) -> (json: Json)
    ensures
        json.model() == value_model(value),
        well_formed(json.model()),
{
    match value {
        serde_json::Value::Null => Json::Null,
        serde_json::Value::Bool(flag) => Json::Bool(flag),
        serde_json::Value::Number(number) => Json::Number(number),
        serde_json::Value::String(text) => Json::String(text),
        serde_json::Value::Array(items) => Json::Array(items.into_iter().map(json_of_value).collect()),
        serde_json::Value::Object(map) => Json::Object(
            map.into_iter().map(|(key, value)| Entry { key, value: json_of_value(value) }).collect(),
        ),
    }
}

/// Copies a [`Json`] into a `serde_json::Value`, variant by variant; the
/// members of an object are collected into a `serde_json::Map`. Trusted: what
/// the value then holds depends on the JSON value alone.
#[verifier::external_body]
pub(crate) fn value_of_json(json: &Json) -> (value: serde_json::Value)
    ensures
        value_model(value) == stored(json.model()),
{
    match json {
        Json::Null => serde_json::Value::Null,
        Json::Bool(flag) => serde_json::Value::Bool(*flag),
        Json::Number(number) => serde_json::Value::Number(number.clone()),
        Json::String(text) => serde_json::Value::String(text.clone()),
        Json::Array(items) => serde_json::Value::Array(items.iter().map(value_of_json).collect()),
        Json::Object(members) => serde_json::Value::Object(
            members.iter().map(|member| (member.key.clone(), value_of_json(&member.value))).collect(),
        ),
    }
}

/// Calls `to_string` of `serde_json::Value`, which prints compact JSON.
/// Trusted: the text depends on what the value holds alone.
#[verifier::external_body]
pub(crate) fn print_value(value: &serde_json::Value) -> (text: String)
    ensures
        text@ == printed(value_model(*value)),
{
    value.to_string()
}

/// `Clone::clone` of `serde_json::Number`. Trusted: the copy is the same
/// number.
pub assume_specification[ <serde_json::Number as Clone>::clone ](
    number: &serde_json::Number,
) -> (copy: serde_json::Number)
    ensures
        copy == *number,
;

} // verus!
