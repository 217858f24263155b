//! Writing values as JSON text. The text itself is the work of
//! `serde_json`; this module hands it the values and takes the bytes.
use vstd::prelude::*;
use vstd::utf8::{decode_utf8, valid_utf8};
use crate::data::{Data, DataModel};

verus! {

/// The JSON value of `serde_json`. What is inside one is known here only
/// through [`json_value_of`].
#[verifier::external_type_specification]
#[verifier::external_body]
pub struct ExJsonValue(serde_json::Value);

/// The JSON value that stands for `doc`: null, a boolean, a number, a
/// string, an array of the items in order, or an object of the entries in
/// the order in which they were entered. Where a mapping holds a name
/// twice, the object holds it once, at the place of the first entry and
/// with the value of the last. The name says nothing of a value that
/// holds a custom error.
pub uninterp spec fn json_value_of(doc: DataModel) -> serde_json::Value;

/// What the compact serializer of `serde_json` writes for a value: the
/// bytes of the text, or the words of its error.
pub uninterp spec fn compact_bytes(value: serde_json::Value) -> Result<Seq<u8>, Seq<char>>;

/// What the pretty serializer of `serde_json` writes for a value when one
/// level of nesting is indented by `indent`: the bytes of the text, or the
/// words of its error.
pub uninterp spec fn pretty_bytes(value: serde_json::Value, indent: Seq<u8>) -> Result<
    Seq<u8>,
    Seq<char>,
>;

/// The words with which std describes why `bytes` are not UTF-8.
pub uninterp spec fn utf8_failure(bytes: Seq<u8>) -> Seq<char>;

/// What a writer handed back, as it stands in contracts.
pub open spec fn written_model(written: Result<Vec<u8>, String>) -> Result<Seq<u8>, Seq<char>> {
    match written {
        Ok(bytes) => Ok(bytes@),
        Err(words) => Err(words@),
    }
}

/// Builds the `serde_json::Value` for a value, variant by variant:
/// `Value::Null`, `Value::Bool`, `Value::from` an `i64`, `Value::String`,
/// `Value::Array` and `Value::Object`. The result depends on nothing but
/// what the value stands for. A custom error has no variant there, so
/// the value must hold none.
#[verifier::external_body]
pub(crate) fn to_json_value(doc: &Data) -> (r: serde_json::Value)
    requires
        doc@.is_plain(),
    ensures
        r == json_value_of(doc@),
{
    match doc {
        Data::Null => serde_json::Value::Null,
        Data::Bool(b) => serde_json::Value::Bool(*b),
        Data::Int(i) => serde_json::Value::from(*i),
        Data::Str(s) => serde_json::Value::String(s.clone()),
        Data::List(items) => serde_json::Value::Array(items.iter().map(to_json_value).collect()),
        Data::Dict(fields) => serde_json::Value::Object(
            fields.iter().map(|f| (f.0.clone(), to_json_value(&f.1))).collect(),
        ),
        Data::Custom { .. } => serde_json::Value::Null,
    }
}

/// Serializes a value with `serde_json::Serializer::new` into a vector of
/// bytes and takes the vector back with `into_inner`. The bytes, or the
/// words of the error, depend on the value alone.
#[verifier::external_body]
pub(crate) fn write_compact(value: &serde_json::Value) -> (r: Result<Vec<u8>, String>)
    ensures
        written_model(r) == compact_bytes(*value),
{
    let mut ser = serde_json::Serializer::new(Vec::new());
    match serde::Serialize::serialize(value, &mut ser) {
        Ok(()) => Ok(ser.into_inner()),
        Err(e) => Err(e.to_string()),
    }
}

/// Serializes a value with `serde_json::Serializer::with_formatter` and a
/// `PrettyFormatter::with_indent` of the given indent, into a vector of
/// bytes. The bytes, or the words of the error, depend on the value and
/// the indent alone.
#[verifier::external_body]
pub(crate) fn write_pretty(value: &serde_json::Value, indent: &Vec<u8>) -> (r: Result<
    Vec<u8>,
    String,
>)
    ensures
        written_model(r) == pretty_bytes(*value, indent@),
{
    let formatter = serde_json::ser::PrettyFormatter::with_indent(indent.as_slice());
    let mut ser = serde_json::Serializer::with_formatter(Vec::new(), formatter);
    match serde::Serialize::serialize(value, &mut ser) {
        Ok(()) => Ok(ser.into_inner()),
        Err(e) => Err(e.to_string()),
    }
}

/// Calls `String::from_utf8` of std: the bytes become a string exactly
/// when they are valid UTF-8, and the string then holds the characters
/// that they encode; otherwise std's description of the fault comes back.
#[verifier::external_body]
pub(crate) fn string_from_utf8(bytes: Vec<u8>) -> (r: Result<String, String>)
    ensures
        r is Ok <==> valid_utf8(bytes@),
        r matches Ok(text) ==> text@ == decode_utf8(bytes@),
        r matches Err(words) ==> words@ == utf8_failure(bytes@),
{
    match String::from_utf8(bytes) {
        Ok(text) => Ok(text),
        Err(e) => Err(e.to_string()),
    }
}

} // verus!
