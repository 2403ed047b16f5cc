//! Decoders for JSON arrays and string-keyed objects.
//!
//! Element failures carry the index (for arrays) or the key (for
//! objects) in the reported path. The first mismatch in document order
//! wins.

use crate::decode::{path_field, path_index, child_field, child_index, DecodeError, DecodeErrorV};
use crate::json::{kind_name, kind_token, JsonValue};
use vstd::prelude::*;
use vstd::string::*;

verus! {

/// What decoding an object of string values yields: every entry's value
/// must be a JSON string; the first offending entry names its key.
pub open spec fn spec_string_entries(es: Seq<(String, JsonValue)>, path: Seq<char>) -> Result<
    Seq<(Seq<char>, Seq<char>)>,
    DecodeErrorV,
>
    decreases es.len(),
{
    if es.len() == 0 {
        Ok(Seq::empty())
    } else {
        match spec_string_entries(es.drop_last(), path) {
            Err(e) => Err(e),
            Ok(prefix) => match es.last().1 {
                JsonValue::Text(s) => Ok(prefix.push((es.last().0@, s@))),
                v => Err(
                    DecodeErrorV {
                        path: path_field(path, es.last().0@),
                        expected: "string"@,
                        found: kind_name(v),
                    },
                ),
            },
        }
    }
}

proof fn lemma_string_entries_err(es: Seq<(String, JsonValue)>, path: Seq<char>, j: int)
    requires
        0 <= j <= es.len(),
        spec_string_entries(es.take(j), path) is Err,
    ensures
        spec_string_entries(es, path) == spec_string_entries(es.take(j), path),
    decreases es.len() - j,
{
    if j < es.len() {
        assert(es.take(j + 1).drop_last() =~= es.take(j));
        lemma_string_entries_err(es, path, j + 1);
    } else {
        assert(es.take(j) =~= es);
    }
}

/// Decodes an object of string values into its entries, in order.
pub fn string_entries(es: &Vec<(String, JsonValue)>, path: &str) -> (r: Result<
    Vec<(String, String)>,
    DecodeError,
>)
    ensures
        r matches Ok(v) ==> spec_string_entries(es@, path@) == Ok::<
            Seq<(Seq<char>, Seq<char>)>,
            DecodeErrorV,
        >(v.deep_view()),
        r matches Err(e) ==> spec_string_entries(es@, path@) == Err::<
            Seq<(Seq<char>, Seq<char>)>,
            DecodeErrorV,
        >(e@),
{
    let mut out: Vec<(String, String)> = Vec::new();
    let n = es.len();
    let mut i: usize = 0;
    proof {
        assert(es@.take(0) =~= Seq::<(String, JsonValue)>::empty());
        assert(out.deep_view() =~= Seq::<(Seq<char>, Seq<char>)>::empty());
    }
    while i < n
        invariant
            0 <= i <= n,
            n == es@.len(),
            spec_string_entries(es@.take(i as int), path@) == Ok::<
                Seq<(Seq<char>, Seq<char>)>,
                DecodeErrorV,
            >(out.deep_view()),
        decreases n - i,
    {
        proof {
            assert(es@.take(i + 1).drop_last() =~= es@.take(i as int));
            assert(es@.take(i + 1).last() == es@[i as int]);
        }
        match &es[i].1 {
            JsonValue::Text(s) => {
                let ghost prev = out.deep_view();
                out.push((es[i].0.clone(), s.clone()));
                proof {
                    assert(out.deep_view() =~= prev.push((es@[i as int].0@, es@[i as int].1->Text_0@)));
                }
            },
            v => {
                proof {
                    lemma_string_entries_err(es@, path@, i + 1);
                }
                return Err(
                    DecodeError {
                        path: child_field(path, es[i].0.as_str()),
                        expected: String::from_str("string"),
                        found: kind_token(v).to_owned(),
                    },
                );
            },
        }
        i = i + 1;
    }
    proof {
        assert(es@.take(n as int) =~= es@);
    }
    Ok(out)
}

/// What decoding an object of nullable string values yields: every
/// entry's value must be a JSON string or null; null means absence.
pub open spec fn spec_nullable_string_entries(
    es: Seq<(String, JsonValue)>,
    path: Seq<char>,
) -> Result<Seq<(Seq<char>, Option<Seq<char>>)>, DecodeErrorV>
    decreases es.len(),
{
    if es.len() == 0 {
        Ok(Seq::empty())
    } else {
        match spec_nullable_string_entries(es.drop_last(), path) {
            Err(e) => Err(e),
            Ok(prefix) => match es.last().1 {
                JsonValue::Text(s) => Ok(prefix.push((es.last().0@, Some(s@)))),
                JsonValue::Null => Ok(prefix.push((es.last().0@, None))),
                v => Err(
                    DecodeErrorV {
                        path: path_field(path, es.last().0@),
                        expected: "string or null"@,
                        found: kind_name(v),
                    },
                ),
            },
        }
    }
}

proof fn lemma_nullable_string_entries_err(es: Seq<(String, JsonValue)>, path: Seq<char>, j: int)
    requires
        0 <= j <= es.len(),
        spec_nullable_string_entries(es.take(j), path) is Err,
    ensures
        spec_nullable_string_entries(es, path) == spec_nullable_string_entries(es.take(j), path),
    decreases es.len() - j,
{
    if j < es.len() {
        assert(es.take(j + 1).drop_last() =~= es.take(j));
        lemma_nullable_string_entries_err(es, path, j + 1);
    } else {
        assert(es.take(j) =~= es);
    }
}

/// Decodes an object of nullable string values into its entries.
pub fn nullable_string_entries(es: &Vec<(String, JsonValue)>, path: &str) -> (r: Result<
    Vec<(String, Option<String>)>,
    DecodeError,
>)
    ensures
        r matches Ok(v) ==> spec_nullable_string_entries(es@, path@) == Ok::<
            Seq<(Seq<char>, Option<Seq<char>>)>,
            DecodeErrorV,
        >(v.deep_view()),
        r matches Err(e) ==> spec_nullable_string_entries(es@, path@) == Err::<
            Seq<(Seq<char>, Option<Seq<char>>)>,
            DecodeErrorV,
        >(e@),
{
    let mut out: Vec<(String, Option<String>)> = Vec::new();
    let n = es.len();
    let mut i: usize = 0;
    proof {
        assert(es@.take(0) =~= Seq::<(String, JsonValue)>::empty());
        assert(out.deep_view() =~= Seq::<(Seq<char>, Option<Seq<char>>)>::empty());
    }
    while i < n
        invariant
            0 <= i <= n,
            n == es@.len(),
            spec_nullable_string_entries(es@.take(i as int), path@) == Ok::<
                Seq<(Seq<char>, Option<Seq<char>>)>,
                DecodeErrorV,
            >(out.deep_view()),
        decreases n - i,
    {
        proof {
            assert(es@.take(i + 1).drop_last() =~= es@.take(i as int));
            assert(es@.take(i + 1).last() == es@[i as int]);
        }
        match &es[i].1 {
            JsonValue::Text(s) => {
                let ghost prev = out.deep_view();
                out.push((es[i].0.clone(), Some(s.clone())));
                proof {
                    assert(out.deep_view() =~= prev.push(
                        (es@[i as int].0@, Some(es@[i as int].1->Text_0@)),
                    ));
                }
            },
            JsonValue::Null => {
                let ghost prev = out.deep_view();
                out.push((es[i].0.clone(), None));
                proof {
                    assert(out.deep_view() =~= prev.push((es@[i as int].0@, None)));
                }
            },
            v => {
                proof {
                    lemma_nullable_string_entries_err(es@, path@, i + 1);
                }
                return Err(
                    DecodeError {
                        path: child_field(path, es[i].0.as_str()),
                        expected: String::from_str("string or null"),
                        found: kind_token(v).to_owned(),
                    },
                );
            },
        }
        i = i + 1;
    }
    proof {
        assert(es@.take(n as int) =~= es@);
    }
    Ok(out)
}

/// What decoding an array of strings yields: every element must be a
/// JSON string; the first offending element names its index.
pub open spec fn spec_string_list(a: Seq<JsonValue>, path: Seq<char>) -> Result<
    Seq<Seq<char>>,
    DecodeErrorV,
>
    decreases a.len(),
{
    if a.len() == 0 {
        Ok(Seq::empty())
    } else {
        match spec_string_list(a.drop_last(), path) {
            Err(e) => Err(e),
            Ok(prefix) => match a.last() {
                JsonValue::Text(s) => Ok(prefix.push(s@)),
                v => Err(
                    DecodeErrorV {
                        path: path_index(path, (a.len() - 1) as nat),
                        expected: "string"@,
                        found: kind_name(v),
                    },
                ),
            },
        }
    }
}

proof fn lemma_string_list_err(a: Seq<JsonValue>, path: Seq<char>, j: int)
    requires
        0 <= j <= a.len(),
        spec_string_list(a.take(j), path) is Err,
    ensures
        spec_string_list(a, path) == spec_string_list(a.take(j), path),
    decreases a.len() - j,
{
    if j < a.len() {
        assert(a.take(j + 1).drop_last() =~= a.take(j));
        lemma_string_list_err(a, path, j + 1);
    } else {
        assert(a.take(j) =~= a);
    }
}

/// Decodes an array of strings.
pub fn string_list(a: &Vec<JsonValue>, path: &str) -> (r: Result<Vec<String>, DecodeError>)
    ensures
        r matches Ok(v) ==> spec_string_list(a@, path@) == Ok::<Seq<Seq<char>>, DecodeErrorV>(
            v.deep_view(),
        ),
        r matches Err(e) ==> spec_string_list(a@, path@) == Err::<Seq<Seq<char>>, DecodeErrorV>(
            e@,
        ),
{
    let mut out: Vec<String> = Vec::new();
    let n = a.len();
    let mut i: usize = 0;
    proof {
        assert(a@.take(0) =~= Seq::<JsonValue>::empty());
        assert(out.deep_view() =~= Seq::<Seq<char>>::empty());
    }
    while i < n
        invariant
            0 <= i <= n,
            n == a@.len(),
            spec_string_list(a@.take(i as int), path@) == Ok::<Seq<Seq<char>>, DecodeErrorV>(
                out.deep_view(),
            ),
        decreases n - i,
    {
        proof {
            assert(a@.take(i + 1).drop_last() =~= a@.take(i as int));
            assert(a@.take(i + 1).last() == a@[i as int]);
        }
        match &a[i] {
            JsonValue::Text(s) => {
                let ghost prev = out.deep_view();
                out.push(s.clone());
                proof {
                    assert(out.deep_view() =~= prev.push(a@[i as int]->Text_0@));
                }
            },
            v => {
                proof {
                    lemma_string_list_err(a@, path@, i + 1);
                }
                return Err(
                    DecodeError {
                        path: child_index(path, i),
                        expected: String::from_str("string"),
                        found: kind_token(v).to_owned(),
                    },
                );
            },
        }
        i = i + 1;
    }
    proof {
        assert(a@.take(n as int) =~= a@);
    }
    Ok(out)
}

/// What decoding an object of numbers yields: every entry's value must
/// be a JSON number, kept as its raw numeral text.
pub open spec fn spec_number_entries(es: Seq<(String, JsonValue)>, path: Seq<char>) -> Result<
    Seq<(Seq<char>, Seq<char>)>,
    DecodeErrorV,
>
    decreases es.len(),
{
    if es.len() == 0 {
        Ok(Seq::empty())
    } else {
        match spec_number_entries(es.drop_last(), path) {
            Err(e) => Err(e),
            Ok(prefix) => match es.last().1 {
                JsonValue::Number(s) => Ok(prefix.push((es.last().0@, s@))),
                v => Err(
                    DecodeErrorV {
                        path: path_field(path, es.last().0@),
                        expected: "number"@,
                        found: kind_name(v),
                    },
                ),
            },
        }
    }
}

proof fn lemma_number_entries_err(es: Seq<(String, JsonValue)>, path: Seq<char>, j: int)
    requires
        0 <= j <= es.len(),
        spec_number_entries(es.take(j), path) is Err,
    ensures
        spec_number_entries(es, path) == spec_number_entries(es.take(j), path),
    decreases es.len() - j,
{
    if j < es.len() {
        assert(es.take(j + 1).drop_last() =~= es.take(j));
        lemma_number_entries_err(es, path, j + 1);
    } else {
        assert(es.take(j) =~= es);
    }
}

/// Decodes an object of numbers into its entries, numerals kept as text.
pub fn number_entries(es: &Vec<(String, JsonValue)>, path: &str) -> (r: Result<
    Vec<(String, String)>,
    DecodeError,
>)
    ensures
        r matches Ok(v) ==> spec_number_entries(es@, path@) == Ok::<
            Seq<(Seq<char>, Seq<char>)>,
            DecodeErrorV,
        >(v.deep_view()),
        r matches Err(e) ==> spec_number_entries(es@, path@) == Err::<
            Seq<(Seq<char>, Seq<char>)>,
            DecodeErrorV,
        >(e@),
{
    let mut out: Vec<(String, String)> = Vec::new();
    let n = es.len();
    let mut i: usize = 0;
    proof {
        assert(es@.take(0) =~= Seq::<(String, JsonValue)>::empty());
        assert(out.deep_view() =~= Seq::<(Seq<char>, Seq<char>)>::empty());
    }
    while i < n
        invariant
            0 <= i <= n,
            n == es@.len(),
            spec_number_entries(es@.take(i as int), path@) == Ok::<
                Seq<(Seq<char>, Seq<char>)>,
                DecodeErrorV,
            >(out.deep_view()),
        decreases n - i,
    {
        proof {
            assert(es@.take(i + 1).drop_last() =~= es@.take(i as int));
            assert(es@.take(i + 1).last() == es@[i as int]);
        }
        match &es[i].1 {
            JsonValue::Number(s) => {
                let ghost prev = out.deep_view();
                out.push((es[i].0.clone(), s.clone()));
                proof {
                    assert(out.deep_view() =~= prev.push(
                        (es@[i as int].0@, es@[i as int].1->Number_0@),
                    ));
                }
            },
            v => {
                proof {
                    lemma_number_entries_err(es@, path@, i + 1);
                }
                return Err(
                    DecodeError {
                        path: child_field(path, es[i].0.as_str()),
                        expected: String::from_str("number"),
                        found: kind_token(v).to_owned(),
                    },
                );
            },
        }
        i = i + 1;
    }
    proof {
        assert(es@.take(n as int) =~= es@);
    }
    Ok(out)
}

/// What decoding a document that must be an array of strings yields.
pub open spec fn spec_string_array(v: JsonValue, path: Seq<char>) -> Result<
    Seq<Seq<char>>,
    DecodeErrorV,
> {
    match v {
        JsonValue::Array(a) => spec_string_list(a@, path),
        _ => Err(DecodeErrorV { path: path, expected: "array"@, found: kind_name(v) }),
    }
}

/// Decodes a document that must be an array of strings.
pub fn decode_string_array(v: &JsonValue, path: &str) -> (r: Result<Vec<String>, DecodeError>)
    ensures
        r matches Ok(list) ==> spec_string_array(*v, path@) == Ok::<Seq<Seq<char>>, DecodeErrorV>(
            list.deep_view(),
        ),
        r matches Err(e) ==> spec_string_array(*v, path@) == Err::<Seq<Seq<char>>, DecodeErrorV>(
            e@,
        ),
{
    match v {
        JsonValue::Array(a) => string_list(a, path),
        _ => Err(
            DecodeError {
                path: path.to_owned(),
                expected: String::from_str("array"),
                found: kind_token(v).to_owned(),
            },
        ),
    }
}

/// What decoding an array of nullable strings yields: every element
/// must be a JSON string or null; null decodes to absence in place.
pub open spec fn spec_nullable_string_list(a: Seq<JsonValue>, path: Seq<char>) -> Result<
    Seq<Option<Seq<char>>>,
    DecodeErrorV,
>
    decreases a.len(),
{
    if a.len() == 0 {
        Ok(Seq::empty())
    } else {
        match spec_nullable_string_list(a.drop_last(), path) {
            Err(e) => Err(e),
            Ok(prefix) => match a.last() {
                JsonValue::Text(s) => Ok(prefix.push(Some(s@))),
                JsonValue::Null => Ok(prefix.push(None)),
                v => Err(
                    DecodeErrorV {
                        path: path_index(path, (a.len() - 1) as nat),
                        expected: "string or null"@,
                        found: kind_name(v),
                    },
                ),
            },
        }
    }
}

proof fn lemma_nullable_string_list_err(a: Seq<JsonValue>, path: Seq<char>, j: int)
    requires
        0 <= j <= a.len(),
        spec_nullable_string_list(a.take(j), path) is Err,
    ensures
        spec_nullable_string_list(a, path) == spec_nullable_string_list(a.take(j), path),
    decreases a.len() - j,
{
    if j < a.len() {
        assert(a.take(j + 1).drop_last() =~= a.take(j));
        lemma_nullable_string_list_err(a, path, j + 1);
    } else {
        assert(a.take(j) =~= a);
    }
}

/// Decodes an array of nullable strings.
pub fn nullable_string_list(a: &Vec<JsonValue>, path: &str) -> (r: Result<
    Vec<Option<String>>,
    DecodeError,
>)
    ensures
        r matches Ok(v) ==> spec_nullable_string_list(a@, path@) == Ok::<
            Seq<Option<Seq<char>>>,
            DecodeErrorV,
        >(v.deep_view()),
        r matches Err(e) ==> spec_nullable_string_list(a@, path@) == Err::<
            Seq<Option<Seq<char>>>,
            DecodeErrorV,
        >(e@),
{
    let mut out: Vec<Option<String>> = Vec::new();
    let n = a.len();
    let mut i: usize = 0;
    proof {
        assert(a@.take(0) =~= Seq::<JsonValue>::empty());
        assert(out.deep_view() =~= Seq::<Option<Seq<char>>>::empty());
    }
    while i < n
        invariant
            0 <= i <= n,
            n == a@.len(),
            spec_nullable_string_list(a@.take(i as int), path@) == Ok::<
                Seq<Option<Seq<char>>>,
                DecodeErrorV,
            >(out.deep_view()),
        decreases n - i,
    {
        proof {
            assert(a@.take(i + 1).drop_last() =~= a@.take(i as int));
            assert(a@.take(i + 1).last() == a@[i as int]);
        }
        match &a[i] {
            JsonValue::Text(s) => {
                let ghost prev = out.deep_view();
                out.push(Some(s.clone()));
                proof {
                    assert(out.deep_view() =~= prev.push(Some(a@[i as int]->Text_0@)));
                }
            },
            JsonValue::Null => {
                let ghost prev = out.deep_view();
                out.push(None);
                proof {
                    assert(out.deep_view() =~= prev.push(None::<Seq<char>>));
                }
            },
            v => {
                proof {
                    lemma_nullable_string_list_err(a@, path@, i + 1);
                }
                return Err(
                    DecodeError {
                        path: child_index(path, i),
                        expected: String::from_str("string or null"),
                        found: kind_token(v).to_owned(),
                    },
                );
            },
        }
        i = i + 1;
    }
    proof {
        assert(a@.take(n as int) =~= a@);
    }
    Ok(out)
}

} // verus!
