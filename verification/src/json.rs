//! A plain JSON value tree, and the trusted boundary to `serde_json`,
//! which does the actual parsing of response text.

use vstd::prelude::*;

verus! {

/// A parsed JSON document as plain library data. Object fields keep the
/// order in which the parser handed them over; a number keeps only its
/// decimal text, since no part of this tool reads numeric values.
#[derive(Debug)]
pub enum JsonValue {
    Null,
    Bool(bool),
    Num(String),
    Str(String),
    Arr(Vec<JsonValue>),
    Obj(Vec<(String, JsonValue)>),
}

/// Declares `serde_json::Value`, the parser's own tree type, so that the
/// conversion below may take it; the type stays opaque here.
#[verifier::external_type_specification]
#[verifier::external_body]
pub struct ExValue(serde_json::Value);

/// What `serde_json` parsing yields on a given text: `None` on a syntax
/// error, otherwise the document as a `JsonValue`. The result depends on
/// the text alone.
pub uninterp spec fn json_parse(s: Seq<char>) -> Option<JsonValue>;

/// Converts a `serde_json` value tree into the library's own value type,
/// variant by variant. Relies on the public shape of `serde_json::Value`.
#[verifier::external_body]
fn value_to_json(v: serde_json::Value) -> JsonValue {
    match v {
        serde_json::Value::Null => JsonValue::Null,
        serde_json::Value::Bool(b) => JsonValue::Bool(b),
        serde_json::Value::Number(n) => JsonValue::Num(n.to_string()),
        serde_json::Value::String(s) => JsonValue::Str(s),
        serde_json::Value::Array(a) => JsonValue::Arr(
            a.into_iter().map(value_to_json).collect(),
        ),
        serde_json::Value::Object(m) => JsonValue::Obj(
            m.into_iter().map(|p| (p.0, value_to_json(p.1))).collect(),
        ),
    }
}

/// Relies on `serde_json::from_str`: parses JSON text, returning `None`
/// exactly when the text is not valid JSON. The parsed tree is converted
/// to `JsonValue` by `value_to_json`; the composite result is a function
/// of the input text alone, named `json_parse`.
#[verifier::external_body]
pub(crate) fn parse_json(s: &str) -> (r: Option<JsonValue>)
    ensures
        r == json_parse(s@),
{
    match serde_json::from_str::<serde_json::Value>(s) {
        Ok(v) => Some(value_to_json(v)),
        Err(_) => None,
    }
}

/// First value under `key` in an object's field list, if any.
pub open spec fn lookup(fields: Seq<(String, JsonValue)>, key: Seq<char>) -> Option<JsonValue>
    decreases fields.len(),
{
    if fields.len() == 0 {
        None
    } else if fields[0].0@ == key {
        Some(fields[0].1)
    } else {
        lookup(fields.drop_first(), key)
    }
}

/// Finds the first field named `key`, as `lookup` describes.
pub fn lookup_field<'a>(fields: &'a Vec<(String, JsonValue)>, key: &str) -> (r: Option<
    &'a JsonValue,
>)
    ensures
        match r {
            Some(v) => lookup(fields@, key@) == Some(*v),
            None => lookup(fields@, key@) is None,
        },
{
    let owned_key: String = key.to_owned();
    let n: usize = fields.len();
    assert(fields@.skip(0) =~= fields@);
    for i in 0..n
        invariant
            n == fields@.len(),
            owned_key@ == key@,
            lookup(fields@, key@) == lookup(fields@.skip(i as int), key@),
    {
        assert(fields@.skip(i as int)[0] == fields@[i as int]);
        if fields[i].0 == owned_key {
            return Some(&fields[i].1);
        }
        assert(fields@.skip(i as int).drop_first() =~= fields@.skip(i as int + 1));
    }
    assert(fields@.skip(n as int) =~= Seq::<(String, JsonValue)>::empty());
    None
}

} // verus!
