//! Tag discovery: tolerant extraction of tag names from a browse
//! response. A missing or malformed `tags` array yields an empty list;
//! non-string array elements are dropped, and the rest keep their order.

use vstd::prelude::*;
use crate::errors::DecodeError;
use crate::json::{json_parse, lookup, lookup_field, parse_json, JsonValue};

verus! {

broadcast use vstd::prelude::Seq::lemma_filter_map_take_succ;

pub open spec fn string_of_item(it: JsonValue) -> Option<Seq<char>> {
    match it {
        JsonValue::Str(s) => Some(s@),
        _ => None,
    }
}

/// The string elements of an array, in their original relative order.
pub open spec fn string_items(items: Seq<JsonValue>) -> Seq<Seq<char>> {
    items.filter_map(|it: JsonValue| string_of_item(it))
}

/// What discovery yields from a parsed browse response: the strings of
/// the `tags` array, or nothing when that array is not there.
pub open spec fn spec_extract_tags(v: JsonValue) -> Seq<Seq<char>> {
    match v {
        JsonValue::Obj(fields) => match lookup(fields@, "tags"@) {
            Some(JsonValue::Arr(items)) => string_items(items@),
            _ => Seq::empty(),
        },
        _ => Seq::empty(),
    }
}

/// Tolerance law: if the response is not an object, has no `tags` field,
/// or its `tags` field is not an array, discovery yields the empty
/// sequence rather than an error.
pub proof fn lemma_discovery_tolerates_malformed_tags(v: JsonValue)
    requires
        !(v matches JsonValue::Obj(fields) && lookup(fields@, "tags"@) matches Some(
            JsonValue::Arr(items),
        )),
    ensures
        spec_extract_tags(v) == Seq::<Seq<char>>::empty(),
{
}

/// Order law: discovery keeps exactly the string elements of the array,
/// in their original relative order — it filters the array down to its
/// strings and takes each string's characters.
pub proof fn lemma_discovery_keeps_strings_in_order(items: Seq<JsonValue>)
    ensures
        string_items(items) == items.filter(|it: JsonValue| it is Str).map_values(
            |it: JsonValue| it->Str_0@,
        ),
    decreases items.len(),
{
    reveal(Seq::filter);
    let f = |it: JsonValue| string_of_item(it);
    let p = |it: JsonValue| it is Str;
    let m = |it: JsonValue| it->Str_0@;
    if items.len() == 0 {
        assert(items.filter(p).map_values(m) =~= Seq::<Seq<char>>::empty());
        assert(items.filter_map(f) =~= Seq::<Seq<char>>::empty());
    } else {
        let rest = items.drop_last();
        lemma_discovery_keeps_strings_in_order(rest);
        if p(items.last()) {
            assert(items.filter(p) == rest.filter(p).push(items.last()));
            assert(items.filter(p).map_values(m) =~= rest.filter(p).map_values(m).push(
                m(items.last()),
            ));
            assert(items.filter_map(f) =~= rest.filter_map(f).push(m(items.last())));
        } else {
            assert(items.filter(p) == rest.filter(p));
            assert(items.filter_map(f) == rest.filter_map(f));
        }
    }
}

/// Pulls the tag-name strings out of a parsed browse response.
pub fn extract_tags(v: &JsonValue) -> (tags: Vec<String>)
    ensures
        tags.deep_view() == spec_extract_tags(*v),
{
    match v {
        JsonValue::Obj(fields) => match lookup_field(fields, "tags") {
            Some(JsonValue::Arr(items)) => {
                let mut out: Vec<String> = Vec::new();
                let n: usize = items.len();
                assert(items@.take(0).filter_map(|it: JsonValue| string_of_item(it)) =~= Seq::<
                    Seq<char>,
                >::empty());
                assert(out.deep_view() =~= Seq::<Seq<char>>::empty());
                for i in 0..n
                    invariant
                        n == items@.len(),
                        out.deep_view() == string_items(items@.take(i as int)),
                {
                    let ghost prev = out.deep_view();
                    match &items[i] {
                        JsonValue::Str(s) => {
                            out.push(s.clone());
                            assert(out.deep_view() =~= prev.push(s@));
                        },
                        _ => {},
                    }
                    assert(items@.take(i + 1).filter_map(|it: JsonValue| string_of_item(it))
                        == string_items(items@.take(i + 1)));
                }
                assert(items@.take(n as int) =~= items@);
                out
            },
            _ => Vec::new(),
        },
        _ => Vec::new(),
    }
}

/// Discovery from raw response text: an error exactly when the body is
/// not valid JSON; otherwise the tags that `spec_extract_tags` names.
pub fn discover_tags(body: &str) -> (r: Result<Vec<String>, DecodeError>)
    ensures
        match json_parse(body@) {
            Some(v) => r matches Ok(tags) && tags.deep_view() == spec_extract_tags(v),
            None => r matches Err(e) && e == DecodeError::InvalidJson,
        },
{
    match parse_json(body) {
        Some(v) => Ok(extract_tags(&v)),
        None => Err(DecodeError::InvalidJson),
    }
}

} // verus!
