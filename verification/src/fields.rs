//! Building JSON objects field by field, and reading optional fields back.

use crate::json::{
    doc_fields_of, doc_insert, json_array, json_as_str, json_bool, json_doc, json_get,
    json_is_null, json_model, json_string, object_of, JsonDoc, JsonModel,
};
use vstd::prelude::*;

verus! {

/// The model of an optional JSON value.
pub open spec fn opt_json(o: Option<serde_json::Value>) -> Option<JsonModel> {
    match o {
        Some(v) => Some(json_model(v)),
        None => None,
    }
}

/// The model of an optional JSON string.
pub open spec fn opt_str_json(o: Option<String>) -> Option<JsonModel> {
    match o {
        Some(s) => Some(JsonModel::Str(s@)),
        None => None,
    }
}

/// The model of an optional JSON boolean.
pub open spec fn opt_bool_json(o: Option<bool>) -> Option<JsonModel> {
    match o {
        Some(b) => Some(JsonModel::Bool(b)),
        None => None,
    }
}

/// An object with a field added when there is a value for it (a field that is
/// `None` is left out of the text altogether).
pub open spec fn with_optional(
    fields: Map<Seq<char>, JsonModel>,
    key: Seq<char>,
    value: Option<JsonModel>,
) -> Map<Seq<char>, JsonModel> {
    match value {
        Some(v) => fields.insert(key, v),
        None => fields,
    }
}

/// How an optional field reads back: a missing field and a `null` both mean
/// "no value".
pub open spec fn optional_field(fields: Map<Seq<char>, JsonModel>, key: Seq<char>) -> Option<
    JsonModel,
> {
    if fields.dom().contains(key) && fields[key] != JsonModel::Null {
        Some(fields[key])
    } else {
        None
    }
}

/// What an object holds under a key: that value when there is one, and no
/// field at all when there is none.
pub open spec fn field_holds(fields: Map<Seq<char>, JsonModel>, key: Seq<char>, value: Option<JsonModel>) -> bool {
    match value {
        Some(v) => fields.dom().contains(key) && fields[key] == v,
        None => !fields.dom().contains(key),
    }
}

/// Whether a document is an object with the given key.
pub open spec fn has_key(m: JsonModel, key: Seq<char>) -> bool {
    match m {
        JsonModel::Object(fields) => fields.dom().contains(key),
        _ => false,
    }
}

pub(crate) proof fn lemma_object_of_push(entries: Seq<(String, serde_json::Value)>, e: (String, serde_json::Value))
    ensures
        object_of(entries.push(e)) == object_of(entries).insert(e.0@, json_model(e.1)),
        doc_fields_of(entries.push(e)) == doc_insert(doc_fields_of(entries), e.0@, json_doc(e.1)),
{
    assert(entries.push(e).drop_last() =~= entries);
}

/// The document of an optional JSON value.
pub open spec fn opt_doc(o: Option<serde_json::Value>) -> Option<JsonDoc> {
    match o {
        Some(v) => Some(json_doc(v)),
        None => None,
    }
}

/// Fields with one more at the end when there is a value for it.
pub open spec fn doc_with_optional(
    fields: Seq<(Seq<char>, JsonDoc)>,
    key: Seq<char>,
    value: Option<JsonDoc>,
) -> Seq<(Seq<char>, JsonDoc)> {
    match value {
        Some(v) => fields.push((key, v)),
        None => fields,
    }
}

/// Setting a key that no field has yet puts it last.
pub(crate) proof fn lemma_doc_insert_fresh(fields: Seq<(Seq<char>, JsonDoc)>, key: Seq<char>, value: JsonDoc)
    requires
        forall|i: int| 0 <= i < fields.len() ==> (#[trigger] fields[i]).0 != key,
    ensures
        doc_insert(fields, key, value) == fields.push((key, value)),
{
}

/// Adds a field at the end of an object under construction.
pub(crate) fn push_field(entries: &mut Vec<(String, serde_json::Value)>, key: &str, value: serde_json::Value)
    ensures
        object_of(final(entries)@) == object_of(old(entries)@).insert(key@, json_model(value)),
        doc_fields_of(final(entries)@) == doc_insert(doc_fields_of(old(entries)@), key@, json_doc(value)),
{
    let k = key.to_string();
    let ghost e = (k, value);
    entries.push((k, value));
    proof {
        lemma_object_of_push(old(entries)@, e);
    }
}

/// Adds a field when there is a value for it.
pub(crate) fn push_optional(
    entries: &mut Vec<(String, serde_json::Value)>,
    key: &str,
    value: Option<serde_json::Value>,
)
    ensures
        object_of(final(entries)@) == with_optional(object_of(old(entries)@), key@, opt_json(value)),
        doc_fields_of(final(entries)@) == match value {
            Some(v) => doc_insert(doc_fields_of(old(entries)@), key@, json_doc(v)),
            None => doc_fields_of(old(entries)@),
        },
{
    match value {
        Some(v) => push_field(entries, key, v),
        None => {},
    }
}

/// The JSON string for an optional text.
pub(crate) fn opt_string_value(s: &Option<String>) -> (r: Option<serde_json::Value>)
    ensures
        opt_json(r) == opt_str_json(*s),
{
    match s {
        Some(t) => Some(json_string(t.clone())),
        None => None,
    }
}

/// The JSON boolean for an optional flag.
pub(crate) fn opt_bool_value(b: Option<bool>) -> (r: Option<serde_json::Value>)
    ensures
        opt_json(r) == opt_bool_json(b),
{
    match b {
        Some(x) => Some(json_bool(x)),
        None => None,
    }
}

/// A copy of an optional JSON value.
pub(crate) fn opt_clone(v: &Option<serde_json::Value>) -> (r: Option<serde_json::Value>)
    ensures
        opt_json(r) == opt_json(*v),
        opt_doc(r) == opt_doc(*v),
{
    match v {
        Some(x) => Some(x.clone()),
        None => None,
    }
}

/// Reads an optional field: `None` when the key is missing or holds `null`.
pub(crate) fn read_optional(v: &serde_json::Value, key: &str) -> (r: Option<serde_json::Value>)
    ensures
        match json_model(*v) {
            JsonModel::Object(fields) => opt_json(r) == optional_field(fields, key@),
            _ => r is None,
        },
{
    match json_get(v, key) {
        Some(x) => {
            if json_is_null(x) {
                None
            } else {
                Some(x.clone())
            }
        },
        None => None,
    }
}

/// Reads a string field: `None` when the key is missing or holds no string.
pub(crate) fn read_string(v: &serde_json::Value, key: &str) -> (r: Option<String>)
    ensures
        match json_model(*v) {
            JsonModel::Object(fields) => match r {
                Some(s) => fields.dom().contains(key@) && fields[key@] == JsonModel::Str(s@),
                None => !(fields.dom().contains(key@) && fields[key@] is Str),
            },
            _ => r is None,
        },
{
    match json_get(v, key) {
        Some(x) => match json_as_str(x) {
            Some(s) => Some(s.to_string()),
            None => None,
        },
        None => None,
    }
}

/// The model of a JSON array of strings.
pub open spec fn strings_json(items: Seq<String>) -> JsonModel {
    JsonModel::Array(items.map_values(|s: String| JsonModel::Str(s@)))
}

/// A JSON array of strings.
pub(crate) fn json_strings(items: &Vec<String>) -> (r: serde_json::Value)
    ensures
        json_model(r) == strings_json(items@),
{
    let mut listed: Vec<serde_json::Value> = Vec::new();
    let mut i: usize = 0;
    while i < items.len()
        invariant
            i <= items@.len(),
            listed@.len() == i,
            forall|j: int| 0 <= j < i ==> json_model(#[trigger] listed@[j]) == JsonModel::Str(items@[j]@),
        decreases items@.len() - i,
    {
        listed.push(json_string(items[i].clone()));
        i = i + 1;
    }
    let r = json_array(listed);
    assert(listed@.map_values(|x: serde_json::Value| json_model(x)) =~= items@.map_values(
        |s: String| JsonModel::Str(s@),
    ));
    r
}

/// Whether a document is an object with the given key (whatever its value).
pub(crate) fn json_has_key(v: &serde_json::Value, key: &str) -> (r: bool)
    ensures
        r == has_key(json_model(*v), key@),
{
    json_get(v, key).is_some()
}

/// A list of strings as JSON is an array with the same number of items, each
/// the string at the same place.
pub proof fn law_strings_json(items: Seq<String>)
    ensures
        strings_json(items) is Array,
        strings_json(items)->Array_0.len() == items.len(),
        forall|i: int| 0 <= i < items.len() ==> #[trigger] strings_json(items)->Array_0[i] == JsonModel::Str(items[i]@),
{
}

} // verus!
