//! The JSON value layer: `serde_json::Value` as an opaque outside type, a
//! mathematical model of JSON documents, and the small set of serde_json
//! operations that the protocol code is built on.

use vstd::prelude::*;

verus! {

#[verifier::external_type_specification]
#[verifier::external_body]
pub struct ExJsonValue(serde_json::Value);

#[verifier::external_type_specification]
#[verifier::external_body]
pub struct ExJsonError(serde_json::Error);

/// A JSON document as a mathematical value.
///
/// Numbers are split as serde_json splits them: integers (which serde_json
/// keeps exactly, in the range of `i64` and `u64`) and floating-point numbers,
/// which are only identified by their IEEE-754 bit pattern.
pub enum JsonModel {
    Null,
    Bool(bool),
    Int(int),
    Float(u64),
    Str(Seq<char>),
    Array(Seq<JsonModel>),
    Object(Map<Seq<char>, JsonModel>),
}

/// What a `serde_json::Value` holds.
pub uninterp spec fn json_model(v: serde_json::Value) -> JsonModel;

/// A JSON document with the order of each object's fields, as a
/// `serde_json::Value` keeps it (the `preserve_order` feature): the view that
/// serde_json's writer walks.
pub enum JsonDoc {
    Null,
    Bool(bool),
    Int(int),
    Float(u64),
    Str(Seq<char>),
    Array(Seq<JsonDoc>),
    Object(Seq<(Seq<char>, JsonDoc)>),
}

/// What a `serde_json::Value` holds, with its fields in order.
pub uninterp spec fn json_doc(v: serde_json::Value) -> JsonDoc;

/// The compact text that serde_json writes for a document (`to_string`,
/// `to_vec`): no white space, fields in their order, strings escaped and
/// floats written as serde_json writes them.
pub uninterp spec fn json_compact_text(d: JsonDoc) -> Seq<char>;

/// An object's fields once a field is set: a key already there keeps its
/// place and takes the new value; a new key goes last.
pub open spec fn doc_insert(
    fields: Seq<(Seq<char>, JsonDoc)>,
    key: Seq<char>,
    value: JsonDoc,
) -> Seq<(Seq<char>, JsonDoc)> {
    if exists|i: int| 0 <= i < fields.len() && (#[trigger] fields[i]).0 == key {
        let i = choose|i: int| 0 <= i < fields.len() && (#[trigger] fields[i]).0 == key;
        fields.update(i, (key, value))
    } else {
        fields.push((key, value))
    }
}

/// The fields of the object that a list of pairs makes, set one by one.
pub open spec fn doc_fields_of(entries: Seq<(String, serde_json::Value)>) -> Seq<(Seq<char>, JsonDoc)>
    decreases entries.len(),
{
    if entries.len() == 0 {
        Seq::empty()
    } else {
        doc_insert(doc_fields_of(entries.drop_last()), entries.last().0@, json_doc(entries.last().1))
    }
}

/// What `serde_json::from_str::<Value>` gives for a text (`None` when it fails).
pub uninterp spec fn parsed_json(text: Seq<char>) -> Option<JsonModel>;

/// What `serde_json::from_slice::<Value>` gives for bytes (`None` when it fails).
pub uninterp spec fn parsed_json_bytes(bytes: Seq<u8>) -> Option<JsonModel>;

/// A document whose arrays and objects nest at most `depth` levels and that
/// holds no floating-point number.
pub open spec fn json_plain_within(m: JsonModel, depth: nat) -> bool
    decreases depth,
{
    match m {
        JsonModel::Float(_) => false,
        JsonModel::Array(items) => depth > 0 && forall|i: int|
            0 <= i < items.len() ==> #[trigger] json_plain_within(items[i], (depth - 1) as nat),
        JsonModel::Object(fields) => depth > 0 && forall|k: Seq<char>|
            fields.dom().contains(k) ==> #[trigger] json_plain_within(fields[k], (depth - 1) as nat),
        _ => true,
    }
}

/// serde_json's parser refuses documents that nest 128 levels or more.
pub open spec fn json_text_stable(m: JsonModel) -> bool {
    json_plain_within(m, 127)
}

/// Parses a JSON text into a value.
///
/// Calls `serde_json::from_str::<Value>`: it succeeds exactly when the named
/// parse result exists, and the value holds that result.
#[verifier::external_body]
pub(crate) fn json_parse(text: &str) -> (r: Result<serde_json::Value, serde_json::Error>)
    ensures
        r is Ok <==> parsed_json(text@) is Some,
        r matches Ok(v) ==> json_model(v) == parsed_json(text@)->0,
{
    serde_json::from_str(text)
}

/// Parses JSON bytes into a value.
///
/// Calls `serde_json::from_slice::<Value>`: it succeeds exactly when the named
/// parse result exists, and the value holds that result.
#[verifier::external_body]
pub(crate) fn json_parse_bytes(bytes: &[u8]) -> (r: Result<serde_json::Value, serde_json::Error>)
    ensures
        r is Ok <==> parsed_json_bytes(bytes@) is Some,
        r matches Ok(v) ==> json_model(v) == parsed_json_bytes(bytes@)->0,
{
    serde_json::from_slice(bytes)
}

/// Writes a value as compact JSON text.
///
/// Calls `serde_json::to_string` on a `Value`; that never fails (a `Value`
/// has only string keys and finite numbers, and the text goes to memory).
/// Parsing the text gives the same document back, for documents that
/// serde_json's parser accepts in full: no floats (whose text serde_json
/// does not promise to read back bit for bit by default) and fewer than
/// 128 levels of nesting. The text is serde_json's compact text of the
/// document, fields in their order.
#[verifier::external_body]
pub(crate) fn json_to_string(v: &serde_json::Value) -> (r: Result<String, serde_json::Error>)
    ensures
        r is Ok,
        r matches Ok(s) ==> s@ == json_compact_text(json_doc(*v)),
        r matches Ok(s) ==> (json_text_stable(json_model(*v)) ==> parsed_json(s@) == Some(
            json_model(*v),
        )),
{
    serde_json::to_string(v)
}

/// Writes a value as compact JSON bytes.
///
/// Calls `serde_json::to_vec` on a `Value`, with the same promises as
/// `json_to_string`: the bytes are the UTF-8 of the same compact text.
#[verifier::external_body]
pub(crate) fn json_to_bytes(v: &serde_json::Value) -> (r: Result<Vec<u8>, serde_json::Error>)
    ensures
        r is Ok,
        r matches Ok(b) ==> b@ == vstd::utf8::encode_utf8(json_compact_text(json_doc(*v))),
        r matches Ok(b) ==> (json_text_stable(json_model(*v)) ==> parsed_json_bytes(b@) == Some(
            json_model(*v),
        )),
{
    serde_json::to_vec(v)
}

/// Looks a key up in a JSON object.
///
/// Calls `Value::get` with a string index: `None` on anything but an object,
/// otherwise the field's value when the key is present.
#[verifier::external_body]
pub(crate) fn json_get<'a>(v: &'a serde_json::Value, key: &str) -> (r: Option<&'a serde_json::Value>)
    ensures
        match json_model(*v) {
            JsonModel::Object(fields) => {
                &&& (r is Some <==> fields.dom().contains(key@))
                &&& (r matches Some(x) ==> json_model(*x) == fields[key@])
            },
            _ => r is None,
        },
{
    v.get(key)
}

/// Calls `Value::as_str`: the text of a JSON string, `None` otherwise.
#[verifier::external_body]
pub(crate) fn json_as_str<'a>(v: &'a serde_json::Value) -> (r: Option<&'a str>)
    ensures
        match json_model(*v) {
            JsonModel::Str(s) => r matches Some(t) && t@ == s,
            _ => r is None,
        },
{
    v.as_str()
}

/// Calls `Value::as_u64`: an integer that fits in `u64`, `None` otherwise.
#[verifier::external_body]
pub(crate) fn json_as_u64(v: &serde_json::Value) -> (r: Option<u64>)
    ensures
        match json_model(*v) {
            JsonModel::Int(n) => if 0 <= n <= u64::MAX {
                r == Some(n as u64)
            } else {
                r is None
            },
            _ => r is None,
        },
{
    v.as_u64()
}

/// Calls `Value::as_i64`: an integer that fits in `i64`, `None` otherwise.
#[verifier::external_body]
pub(crate) fn json_as_i64(v: &serde_json::Value) -> (r: Option<i64>)
    ensures
        match json_model(*v) {
            JsonModel::Int(n) => if i64::MIN <= n <= i64::MAX {
                r == Some(n as i64)
            } else {
                r is None
            },
            _ => r is None,
        },
{
    v.as_i64()
}

/// Calls `Value::as_array`: the elements of a JSON array, `None` otherwise.
#[verifier::external_body]
pub(crate) fn json_as_array<'a>(v: &'a serde_json::Value) -> (r: Option<&'a Vec<serde_json::Value>>)
    ensures
        match json_model(*v) {
            JsonModel::Array(items) => r matches Some(a) && a@.len() == items.len() && (forall|
                i: int,
            |
                0 <= i < items.len() ==> #[trigger] json_model(a@[i]) == items[i]),
            _ => r is None,
        },
{
    v.as_array()
}

/// Calls `Value::is_null`.
#[verifier::external_body]
pub(crate) fn json_is_null(v: &serde_json::Value) -> (r: bool)
    ensures
        r == (json_model(*v) == JsonModel::Null),
{
    v.is_null()
}

/// `Value::clone` copies the document.
pub assume_specification[ <serde_json::Value as Clone>::clone ](v: &serde_json::Value) -> (r:
    serde_json::Value)
    ensures
        json_model(r) == json_model(*v),
        json_doc(r) == json_doc(*v),
;

/// Builds `Value::Null`.
#[verifier::external_body]
pub(crate) fn json_null() -> (r: serde_json::Value)
    ensures
        json_model(r) == JsonModel::Null,
        json_doc(r) == JsonDoc::Null,
{
    serde_json::Value::Null
}

/// Builds `Value::Bool`.
#[verifier::external_body]
pub(crate) fn json_bool(b: bool) -> (r: serde_json::Value)
    ensures
        json_model(r) == JsonModel::Bool(b),
        json_doc(r) == JsonDoc::Bool(b),
{
    serde_json::Value::Bool(b)
}

/// Builds `Value::String`.
#[verifier::external_body]
pub(crate) fn json_string(s: String) -> (r: serde_json::Value)
    ensures
        json_model(r) == JsonModel::Str(s@),
        json_doc(r) == JsonDoc::Str(s@),
{
    serde_json::Value::String(s)
}

/// Calls `Value::from(u64)`, which makes an integer number.
#[verifier::external_body]
pub(crate) fn json_u64(n: u64) -> (r: serde_json::Value)
    ensures
        json_model(r) == JsonModel::Int(n as int),
        json_doc(r) == JsonDoc::Int(n as int),
{
    serde_json::Value::from(n)
}

/// Calls `Value::from(i64)`, which makes an integer number.
#[verifier::external_body]
pub(crate) fn json_i64(n: i64) -> (r: serde_json::Value)
    ensures
        json_model(r) == JsonModel::Int(n as int),
        json_doc(r) == JsonDoc::Int(n as int),
{
    serde_json::Value::from(n)
}

/// Builds `Value::Array` from its elements.
#[verifier::external_body]
pub(crate) fn json_array(items: Vec<serde_json::Value>) -> (r: serde_json::Value)
    ensures
        json_model(r) == JsonModel::Array(items@.map_values(|x: serde_json::Value| json_model(x))),
        json_doc(r) == JsonDoc::Array(items@.map_values(|x: serde_json::Value| json_doc(x))),
{
    serde_json::Value::Array(items)
}

/// The object that a list of fields with distinct keys makes.
pub open spec fn object_of(entries: Seq<(String, serde_json::Value)>) -> Map<Seq<char>, JsonModel>
    decreases entries.len(),
{
    if entries.len() == 0 {
        Map::empty()
    } else {
        object_of(entries.drop_last()).insert(
            entries.last().0@,
            json_model(entries.last().1),
        )
    }
}

/// Calls `Value::from_iter` on `(String, Value)` pairs, which makes an object
/// holding each pair in order; a repeated key keeps its first place and its
/// last value (an `IndexMap` insert).
#[verifier::external_body]
pub(crate) fn json_object(entries: Vec<(String, serde_json::Value)>) -> (r: serde_json::Value)
    ensures
        json_model(r) == JsonModel::Object(object_of(entries@)),
        json_doc(r) == JsonDoc::Object(doc_fields_of(entries@)),
{
    entries.into_iter().collect()
}

/// Makes a serde_json error that carries a message, through
/// `serde::de::Error::custom`. Nothing is stated of the error's text.
#[verifier::external_body]
pub(crate) fn json_error(message: &str) -> (r: serde_json::Error) {
    <serde_json::Error as serde::de::Error>::custom(message)
}

} // verus!
