//! JSON documents the library reads, parsed and queried by `serde_json`.
//!
//! A [`JsonDoc`] holds the `serde_json::Value` together with what that
//! value is, as a [`JsonModel`]. Only the functions of this module make a
//! `JsonDoc`, each from `serde_json`'s own result: the parse of a text, or
//! a member of a document already made. So the model of every `JsonDoc`
//! is the value it holds.

use vstd::prelude::*;

verus! {

/// A parsed JSON document, as `serde_json` holds it.
#[verifier::external_type_specification]
#[verifier::external_body]
pub struct ExJsonValue(serde_json::Value);

/// A JSON number as `serde_json` stores it: a non-negative integer, a
/// negative integer, or a float (whose value the library never reads).
pub enum JsonNumber {
    PosInt(u64),
    NegInt(i64),
    Float,
}

/// A JSON value: what a `serde_json::Value` holds.
pub enum JsonModel {
    Null,
    Bool(bool),
    Number(JsonNumber),
    Str(Seq<char>),
    Array(Seq<JsonModel>),
    Object(Map<Seq<char>, JsonModel>),
}

/// What `serde_json::from_str::<Value>` makes of `text`: `None` when the
/// text is not one JSON document. A function of the text alone.
pub uninterp spec fn json_document(text: Seq<char>) -> Option<JsonModel>;

/// The member `key` of an object; `None` for anything else or a missing key.
pub open spec fn json_member(v: JsonModel, key: Seq<char>) -> Option<JsonModel> {
    match v {
        JsonModel::Object(members) => if members.contains_key(key) {
            Some(members[key])
        } else {
            None
        },
        _ => None,
    }
}

/// The text of a JSON string.
pub open spec fn json_str(v: JsonModel) -> Option<Seq<char>> {
    match v {
        JsonModel::Str(s) => Some(s),
        _ => None,
    }
}

/// A JSON integer that fits in `u64`.
pub open spec fn json_u64(v: JsonModel) -> Option<u64> {
    match v {
        JsonModel::Number(JsonNumber::PosInt(n)) => Some(n),
        _ => None,
    }
}

/// A JSON integer that fits in `i64`.
pub open spec fn json_i64(v: JsonModel) -> Option<i64> {
    match v {
        JsonModel::Number(JsonNumber::PosInt(n)) => if n <= i64::MAX {
            Some(n as i64)
        } else {
            None
        },
        JsonModel::Number(JsonNumber::NegInt(n)) => Some(n),
        _ => None,
    }
}

/// A JSON boolean.
pub open spec fn json_bool(v: JsonModel) -> Option<bool> {
    match v {
        JsonModel::Bool(b) => Some(b),
        _ => None,
    }
}

/// A parsed JSON value, with what it holds.
pub struct JsonDoc {
    value: serde_json::Value,
    model: Ghost<JsonModel>,
}

impl View for JsonDoc {
    type V = JsonModel;

    closed spec fn view(&self) -> JsonModel {
        self.model@
    }
}

/// `serde_json::from_str::<Value>`: the parsed document, `None` when the
/// text is not JSON. What it holds is [`json_document`] of the text.
#[verifier::external_body]
pub(crate) fn parse_json(text: &str) -> (r: Option<JsonDoc>)
    ensures
        match json_document(text@) {
            Some(m) => r matches Some(d) && d@ == m,
            None => r is None,
        },
{
    match serde_json::from_str::<serde_json::Value>(text) {
        Ok(value) => Some(JsonDoc { value, model: Ghost(json_document(text@)->0) }),
        Err(_) => None,
    }
}

/// `Value::get` with a string key (the member copied out with
/// `Value::clone`): the member `key` of an object, `None` when the value is
/// not an object or has no such member.
#[verifier::external_body]
pub(crate) fn json_get(doc: &JsonDoc, key: &str) -> (r: Option<JsonDoc>)
    ensures
        match json_member(doc@, key@) {
            Some(m) => r matches Some(d) && d@ == m,
            None => r is None,
        },
{
    match doc.value.get(key) {
        Some(v) => Some(JsonDoc { value: v.clone(), model: Ghost(json_member(doc@, key@)->0) }),
        None => None,
    }
}

/// `Value::as_str`, the string copied out: `Some` only for a JSON string.
#[verifier::external_body]
pub(crate) fn json_as_str(doc: &JsonDoc) -> (r: Option<String>)
    ensures
        match json_str(doc@) {
            Some(s) => r matches Some(t) && t@ == s,
            None => r is None,
        },
{
    match doc.value.as_str() {
        Some(s) => Some(s.to_string()),
        None => None,
    }
}

/// `Value::as_u64`: `Some` only for a JSON integer that fits in `u64`.
#[verifier::external_body]
pub(crate) fn json_as_u64(doc: &JsonDoc) -> (r: Option<u64>)
    ensures
        r == json_u64(doc@),
{
    doc.value.as_u64()
}

/// `Value::as_i64`: `Some` only for a JSON integer that fits in `i64`.
#[verifier::external_body]
pub(crate) fn json_as_i64(doc: &JsonDoc) -> (r: Option<i64>)
    ensures
        r == json_i64(doc@),
{
    doc.value.as_i64()
}

/// `Value::as_bool`: `Some` only for a JSON boolean.
#[verifier::external_body]
pub(crate) fn json_as_bool(doc: &JsonDoc) -> (r: Option<bool>)
    ensures
        r == json_bool(doc@),
{
    doc.value.as_bool()
}

impl JsonDoc {
    /// Parses `text` as one JSON document; `None` when it is not JSON.
    pub fn parse(text: &str) -> (r: Option<JsonDoc>)
        ensures
            match json_document(text@) {
                Some(m) => r matches Some(d) && d@ == m,
                None => r is None,
            },
    {
        parse_json(text)
    }

    /// The `serde_json` value, for reading what the library does not
    /// (floating-point numbers).
    pub fn value(&self) -> &serde_json::Value {
        &self.value
    }
}

} // verus!
