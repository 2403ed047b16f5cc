//! Schema-aware decoding primitives with path-accurate diagnostics.
//!
//! Every decoder reports a structural mismatch with the exact dotted
//! (and indexed) path of the element that failed, together with the
//! expected and found shapes; a generic parse failure would be useless
//! against the large, drifting upstream schemas.

use crate::digits::{dec_chars, int_text_val, parse_i64, render_u64};
use crate::json::{found_name, kind_name, kind_token, find_field, lookup_entries, JsonValue};
use vstd::prelude::*;
use vstd::string::*;

verus! {

/// The mathematical content of a decode failure.
#[verifier::ext_equal]
pub ghost struct DecodeErrorV {
    /// Dotted, indexed path of the failing element.
    pub path: Seq<char>,
    /// The shape the schema expected there.
    pub expected: Seq<char>,
    /// The shape that was found instead.
    pub found: Seq<char>,
}

/// A structural decode failure: the exact path at which the document
/// stopped matching the schema, with the expected and found shapes.
#[derive(Debug, Clone, PartialEq, Eq)]
pub struct DecodeError {
    /// Dotted, indexed path of the failing element.
    pub path: String,
    /// The shape the schema expected there.
    pub expected: String,
    /// The shape that was found instead.
    pub found: String,
}

impl View for DecodeError {
    type V = DecodeErrorV;

    open spec fn view(&self) -> DecodeErrorV {
        DecodeErrorV { path: self.path@, expected: self.expected@, found: self.found@ }
    }
}

impl DecodeError {
    /// A one-line description of the failure.
    pub fn get_string(&self) -> (r: String)
        ensures
            r@ == self.path@ + ": expected "@ + self.expected@ + ", found "@ + self.found@,
    {
        let mut s = self.path.clone();
        s.append(": expected ");
        s.append(self.expected.as_str());
        s.append(", found ");
        s.append(self.found.as_str());
        s
    }
}

/// A result with both sides replaced by their views.
pub open spec fn res_view<T: View, E: View>(r: Result<T, E>) -> Result<T::V, E::V> {
    match r {
        Ok(t) => Ok(t@),
        Err(e) => Err(e@),
    }
}

/// An option with its content replaced by its view.
pub open spec fn opt_view<T: View>(o: Option<T>) -> Option<T::V> {
    match o {
        Some(t) => Some(t@),
        None => None,
    }
}

/// A sequence with every element replaced by its view.
pub open spec fn seq_view<T: View>(s: Seq<T>) -> Seq<T::V> {
    s.map_values(|t: T| t@)
}

/// The path of a named field under `p`.
pub open spec fn path_field(p: Seq<char>, name: Seq<char>) -> Seq<char> {
    if p.len() == 0 {
        name
    } else {
        p + seq!['.'] + name
    }
}

/// The path of an array element under `p`.
pub open spec fn path_index(p: Seq<char>, i: nat) -> Seq<char> {
    p + seq!['['] + dec_chars(i) + seq![']']
}

/// Builds the path of a named field under `path`.
pub fn child_field(path: &str, name: &str) -> (r: String)
    ensures
        r@ == path_field(path@, name@),
{
    if path.is_empty() {
        name.to_owned()
    } else {
        proof {
            reveal_strlit(".");
        }
        let mut s = path.to_owned();
        s.append(".");
        s.append(name);
        proof {
            assert(s@ =~= path_field(path@, name@));
        }
        s
    }
}

/// Builds the path of an array element under `path`.
pub fn child_index(path: &str, i: usize) -> (r: String)
    ensures
        r@ == path_index(path@, i as nat),
{
    proof {
        reveal_strlit("[");
        reveal_strlit("]");
    }
    let mut s = path.to_owned();
    s.append("[");
    let d = render_u64(i as u64);
    s.append(d.as_str());
    s.append("]");
    proof {
        assert(s@ =~= path_index(path@, i as nat));
    }
    s
}

/// The failure reported for field `key` under `path` when the schema
/// expected shape `expected` and the lookup found `o`.
pub open spec fn field_err(
    path: Seq<char>,
    key: Seq<char>,
    expected: Seq<char>,
    o: Option<JsonValue>,
) -> DecodeErrorV {
    DecodeErrorV { path: path_field(path, key), expected: expected, found: found_name(o) }
}

pub(crate) fn make_field_err(path: &str, key: &str, expected: &str, o: Option<&JsonValue>) -> (r: DecodeError)
    ensures
        r@ == (DecodeErrorV {
            path: path_field(path@, key@),
            expected: expected@,
            found: match o {
                None => "missing"@,
                Some(v) => kind_name(*v),
            },
        }),
{
    let found = match o {
        None => "missing",
        Some(v) => kind_token(v),
    };
    DecodeError {
        path: child_field(path, key),
        expected: expected.to_owned(),
        found: found.to_owned(),
    }
}

/// The failure reported at `path` itself when the schema expected shape
/// `expected` and the document holds `v`.
pub open spec fn shape_err(path: Seq<char>, expected: Seq<char>, v: JsonValue) -> DecodeErrorV {
    DecodeErrorV { path: path, expected: expected, found: kind_name(v) }
}

/// Builds the failure for a value of the wrong shape at `path` itself.
pub fn make_shape_err(path: &str, expected: &str, v: &JsonValue) -> (r: DecodeError)
    ensures
        r@ == shape_err(path@, expected@, *v),
{
    DecodeError { path: path.to_owned(), expected: expected.to_owned(), found: kind_token(v).to_owned() }
}

/// What decoding a required string field yields: the text exactly when
/// the field is present as a JSON string, else the precise failure.
pub open spec fn spec_req_string(
    es: Seq<(String, JsonValue)>,
    key: Seq<char>,
    path: Seq<char>,
) -> Result<Seq<char>, DecodeErrorV> {
    match lookup_entries(es, key) {
        Some(JsonValue::Text(s)) => Ok(s@),
        o => Err(field_err(path, key, "string"@, o)),
    }
}

/// Decodes a required string field of an object.
pub fn req_string(es: &Vec<(String, JsonValue)>, key: &str, path: &str) -> (r: Result<
    String,
    DecodeError,
>)
    ensures
        res_view(r) == spec_req_string(es@, key@, path@),
{
    let f = find_field(es, key);
    match f {
        Some(JsonValue::Text(s)) => Ok(s.clone()),
        o => Err(make_field_err(path, key, "string", o)),
    }
}

/// What decoding an optional string field yields: absent and null both
/// mean `None`; any other non-string shape is a failure.
pub open spec fn spec_opt_string(
    es: Seq<(String, JsonValue)>,
    key: Seq<char>,
    path: Seq<char>,
) -> Result<Option<Seq<char>>, DecodeErrorV> {
    match lookup_entries(es, key) {
        None => Ok(None),
        Some(JsonValue::Null) => Ok(None),
        Some(JsonValue::Text(s)) => Ok(Some(s@)),
        o => Err(field_err(path, key, "string or null"@, o)),
    }
}

/// Decodes an optional string field: a missing field and a JSON null
/// both decode to `None`.
pub fn opt_string(es: &Vec<(String, JsonValue)>, key: &str, path: &str) -> (r: Result<
    Option<String>,
    DecodeError,
>)
    ensures
        r matches Ok(v) ==> spec_opt_string(es@, key@, path@) == Ok::<
            Option<Seq<char>>,
            DecodeErrorV,
        >(opt_view(v)),
        r matches Err(e) ==> spec_opt_string(es@, key@, path@) == Err::<
            Option<Seq<char>>,
            DecodeErrorV,
        >(e@),
{
    let f = find_field(es, key);
    match f {
        None => Ok(None),
        Some(JsonValue::Null) => Ok(None),
        Some(JsonValue::Text(s)) => Ok(Some(s.clone())),
        o => Err(make_field_err(path, key, "string or null", o)),
    }
}

/// What decoding a required boolean field yields.
pub open spec fn spec_req_bool(
    es: Seq<(String, JsonValue)>,
    key: Seq<char>,
    path: Seq<char>,
) -> Result<bool, DecodeErrorV> {
    match lookup_entries(es, key) {
        Some(JsonValue::Bool(b)) => Ok(b),
        o => Err(field_err(path, key, "boolean"@, o)),
    }
}

/// Decodes a required boolean field of an object.
pub fn req_bool(es: &Vec<(String, JsonValue)>, key: &str, path: &str) -> (r: Result<
    bool,
    DecodeError,
>)
    ensures
        r matches Ok(b) ==> spec_req_bool(es@, key@, path@) == Ok::<bool, DecodeErrorV>(b),
        r matches Err(e) ==> spec_req_bool(es@, key@, path@) == Err::<bool, DecodeErrorV>(e@),
{
    let f = find_field(es, key);
    match f {
        Some(JsonValue::Bool(b)) => Ok(*b),
        o => Err(make_field_err(path, key, "boolean", o)),
    }
}

/// What an integer-valued JSON number denotes: the value of its numeral
/// text, exactly when that text is an integer numeral in `i64` range.
pub open spec fn number_i64(s: Seq<char>) -> Option<int> {
    match int_text_val(s) {
        Some(x) => if i64::MIN <= x <= i64::MAX {
            Some(x)
        } else {
            None
        },
        None => None,
    }
}

/// What decoding a required integer field yields: the number's value
/// exactly when the field is a JSON number whose numeral is an integer
/// in range; a fractional or out-of-range number is a failure too.
pub open spec fn spec_req_i64(
    es: Seq<(String, JsonValue)>,
    key: Seq<char>,
    path: Seq<char>,
) -> Result<int, DecodeErrorV> {
    match lookup_entries(es, key) {
        Some(JsonValue::Number(s)) => match number_i64(s@) {
            Some(x) => Ok(x),
            None => Err(field_err(path, key, "integer"@, Some(JsonValue::Number(s)))),
        },
        o => Err(field_err(path, key, "integer"@, o)),
    }
}

/// Decodes a required integer field of an object.
pub fn req_i64(es: &Vec<(String, JsonValue)>, key: &str, path: &str) -> (r: Result<
    i64,
    DecodeError,
>)
    ensures
        r matches Ok(v) ==> spec_req_i64(es@, key@, path@) == Ok::<int, DecodeErrorV>(v as int),
        r matches Err(e) ==> spec_req_i64(es@, key@, path@) == Err::<int, DecodeErrorV>(e@),
{
    let f = find_field(es, key);
    match f {
        Some(JsonValue::Number(s)) => {
            match parse_i64(s.as_str()) {
                Some(v) => Ok(v),
                None => Err(make_field_err(path, key, "integer", f)),
            }
        },
        o => Err(make_field_err(path, key, "integer", o)),
    }
}

/// What decoding an optional integer field yields: absent and null both
/// mean `None`.
pub open spec fn spec_opt_i64(
    es: Seq<(String, JsonValue)>,
    key: Seq<char>,
    path: Seq<char>,
) -> Result<Option<int>, DecodeErrorV> {
    match lookup_entries(es, key) {
        None => Ok(None),
        Some(JsonValue::Null) => Ok(None),
        Some(JsonValue::Number(s)) => match number_i64(s@) {
            Some(x) => Ok(Some(x)),
            None => Err(field_err(path, key, "integer or null"@, Some(JsonValue::Number(s)))),
        },
        o => Err(field_err(path, key, "integer or null"@, o)),
    }
}

/// Decodes an optional integer field: a missing field and a JSON null
/// both decode to `None`.
pub fn opt_i64(es: &Vec<(String, JsonValue)>, key: &str, path: &str) -> (r: Result<
    Option<i64>,
    DecodeError,
>)
    ensures
        r matches Ok(v) ==> spec_opt_i64(es@, key@, path@) == Ok::<Option<int>, DecodeErrorV>(
            match v {
                Some(x) => Some(x as int),
                None => None,
            },
        ),
        r matches Err(e) ==> spec_opt_i64(es@, key@, path@) == Err::<Option<int>, DecodeErrorV>(
            e@,
        ),
{
    let f = find_field(es, key);
    match f {
        None => Ok(None),
        Some(JsonValue::Null) => Ok(None),
        Some(JsonValue::Number(s)) => {
            match parse_i64(s.as_str()) {
                Some(v) => Ok(Some(v)),
                None => Err(make_field_err(path, key, "integer or null", f)),
            }
        },
        o => Err(make_field_err(path, key, "integer or null", o)),
    }
}

} // verus!
