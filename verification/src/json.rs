//! A plain-value model of JSON documents, and the outside parser call.
//!
//! Numbers keep their raw numeral text: the upstream API emits numeric
//! fields with unstable types (number, string, null or object depending
//! on market conditions), so narrowing to a concrete number happens per
//! field during schema decoding, never at parse time.

use vstd::prelude::*;

verus! {

/// A JSON document held as plain values.
#[derive(Debug)]
pub enum JsonValue {
    /// A JSON null.
    Null,
    /// A JSON boolean.
    Bool(bool),
    /// A JSON number, kept as its raw numeral text.
    Number(String),
    /// A JSON string.
    Text(String),
    /// A JSON array.
    Array(Vec<JsonValue>),
    /// A JSON object: its entries in parser order, keys first.
    Object(Vec<(String, JsonValue)>),
}

/// The outside parser's document type, declared so that the conversion
/// below can carry it.
#[verifier::external_type_specification]
#[verifier::external_body]
pub struct ExSerdeValue(serde_json::Value);

/// What parsing a given text yields: `None` on malformed input, else the
/// document as the library's model. The outcome depends on the text
/// alone, so it can be named.
pub uninterp spec fn json_doc_of(s: Seq<char>) -> Option<JsonValue>;

/// Relies on serde_json::Value and serde_json::Number::to_string: turns
/// the outside parser's document into the library's model, variant by
/// variant; numbers keep the parser's numeral text. This is the
/// conversion half of `parse_json` below and is only called there.
#[verifier::external_body]
fn value_model(v: serde_json::Value) -> JsonValue {
    match v {
        serde_json::Value::Null => JsonValue::Null,
        serde_json::Value::Bool(b) => JsonValue::Bool(b),
        serde_json::Value::Number(n) => JsonValue::Number(n.to_string()),
        serde_json::Value::String(s) => JsonValue::Text(s),
        serde_json::Value::Array(a) => JsonValue::Array(a.into_iter().map(value_model).collect()),
        serde_json::Value::Object(m) => JsonValue::Object(
            m.into_iter().map(|(k, w)| (k, value_model(w))).collect(),
        ),
    }
}

/// Relies on serde_json::from_str::<serde_json::Value>: parses JSON
/// text into a document, or yields nothing on text the parser refuses.
/// The outcome is a function of the text alone and carries its name.
#[verifier::external_body]
pub(crate) fn parse_json(text: &str) -> (r: Option<JsonValue>)
    ensures
        r == json_doc_of(text@),
{
    match serde_json::from_str::<serde_json::Value>(text) {
        Ok(v) => Some(value_model(v)),
        Err(_) => None,
    }
}

/// The first value under `key` among an object's entries.
pub open spec fn lookup_entries(es: Seq<(String, JsonValue)>, key: Seq<char>) -> Option<JsonValue>
    decreases es.len(),
{
    if es.len() == 0 {
        None
    } else if es[0].0@ == key {
        Some(es[0].1)
    } else {
        lookup_entries(es.drop_first(), key)
    }
}

/// Finds the first value under `key` among an object's entries.
pub fn find_field<'a>(entries: &'a Vec<(String, JsonValue)>, key: &str) -> (r: Option<
    &'a JsonValue,
>)
    ensures
        match r {
            Some(v) => lookup_entries(entries@, key@) == Some(*v),
            None => lookup_entries(entries@, key@) is None,
        },
{
    let k = key.to_owned();
    let n = entries.len();
    let mut i: usize = 0;
    proof {
        assert(entries@.skip(0) =~= entries@);
    }
    while i < n
        invariant
            0 <= i <= n,
            n == entries@.len(),
            k@ == key@,
            lookup_entries(entries@, key@) == lookup_entries(entries@.skip(i as int), key@),
        decreases n - i,
    {
        proof {
            assert(entries@.skip(i as int)[0] == entries@[i as int]);
            assert(entries@.skip(i as int).drop_first() =~= entries@.skip(i + 1));
        }
        if entries[i].0 == k {
            return Some(&entries[i].1);
        }
        i = i + 1;
    }
    proof {
        assert(entries@.skip(n as int) =~= Seq::<(String, JsonValue)>::empty());
    }
    None
}

/// The shape name of a document value, as used in decode diagnostics.
pub open spec fn kind_name(v: JsonValue) -> Seq<char> {
    match v {
        JsonValue::Null => "null"@,
        JsonValue::Bool(_) => "boolean"@,
        JsonValue::Number(_) => "number"@,
        JsonValue::Text(_) => "string"@,
        JsonValue::Array(_) => "array"@,
        JsonValue::Object(_) => "object"@,
    }
}

/// The shape found at a looked-up position: a value's shape name, or
/// `missing` where there was no value at all.
pub open spec fn found_name(o: Option<JsonValue>) -> Seq<char> {
    match o {
        None => "missing"@,
        Some(v) => kind_name(v),
    }
}

/// The shape name of a document value.
pub fn kind_token(v: &JsonValue) -> (r: &'static str)
    ensures
        r@ == kind_name(*v),
{
    match v {
        JsonValue::Null => "null",
        JsonValue::Bool(_) => "boolean",
        JsonValue::Number(_) => "number",
        JsonValue::Text(_) => "string",
        JsonValue::Array(_) => "array",
        JsonValue::Object(_) => "object",
    }
}

} // verus!
