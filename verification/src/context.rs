//! Tag context fetch: strict decoding of the `getTagContext` response.
//! Unlike discovery, a missing required field or a type mismatch is a
//! hard error here; only the two item identifiers may be absent or null.

use vstd::prelude::*;
use crate::errors::DecodeError;
use crate::json::{json_parse, lookup, lookup_field, parse_json, JsonValue};
use crate::records::{view_opt_string, TagRecord, TagRecordV};

verus! {

/// An optional string field: absent or null means `None`, a string means
/// `Some`, and any other value is a shape error (outer `None`).
pub open spec fn opt_string_field(fields: Seq<(String, JsonValue)>, key: Seq<char>) -> Option<
    Option<Seq<char>>,
> {
    match lookup(fields, key) {
        None => Some(None),
        Some(JsonValue::Null) => Some(None),
        Some(JsonValue::Str(s)) => Some(Some(s@)),
        Some(_) => None,
    }
}

/// A required string field: anything but a present string is a shape
/// error.
pub open spec fn req_string_field(fields: Seq<(String, JsonValue)>, key: Seq<char>) -> Option<
    Seq<char>,
> {
    match lookup(fields, key) {
        Some(JsonValue::Str(s)) => Some(s@),
        _ => None,
    }
}

/// One entry of the `data` array: an object with a string `tagName` and
/// a `tagContext` object holding the four detail fields.
pub open spec fn decode_record(v: JsonValue) -> Option<TagRecordV> {
    match v {
        JsonValue::Obj(fields) => match (lookup(fields@, "tagName"@), lookup(
            fields@,
            "tagContext"@,
        )) {
            (Some(JsonValue::Str(name)), Some(JsonValue::Obj(ctx))) => decode_details(name@, ctx@),
            _ => None,
        },
        _ => None,
    }
}

pub open spec fn decode_details(name: Seq<char>, ctx: Seq<(String, JsonValue)>) -> Option<
    TagRecordV,
> {
    match (opt_string_field(ctx, "historianItemId"@), opt_string_field(ctx, "sourceItemId"@),
    req_string_field(ctx, "oldestTimeStamp"@), req_string_field(ctx, "latestTimeStamp"@)) {
        (Some(h), Some(s), Some(o), Some(l)) => Some(
            TagRecordV {
                tag_name: name,
                historian_item_id: h,
                source_item_id: s,
                oldest_timestamp: o,
                latest_timestamp: l,
            },
        ),
        _ => None,
    }
}

/// All entries decoded in response order; one bad entry fails the whole
/// decode.
pub open spec fn decode_records(items: Seq<JsonValue>) -> Option<Seq<TagRecordV>>
    decreases items.len(),
{
    if items.len() == 0 {
        Some(Seq::empty())
    } else {
        match (decode_records(items.drop_last()), decode_record(items.last())) {
            (Some(rs), Some(r)) => Some(rs.push(r)),
            _ => None,
        }
    }
}

/// What the context fetch yields from a parsed response: the records of
/// the `data` array, or a shape error.
pub open spec fn spec_decode_response(v: JsonValue) -> Option<Seq<TagRecordV>> {
    match v {
        JsonValue::Obj(fields) => match lookup(fields@, "data"@) {
            Some(JsonValue::Arr(items)) => decode_records(items@),
            _ => None,
        },
        _ => None,
    }
}

proof fn lemma_decode_records_fail(items: Seq<JsonValue>, i: int)
    requires
        0 <= i < items.len(),
        decode_record(items[i]) is None,
    ensures
        decode_records(items) is None,
    decreases items.len(),
{
    if i == items.len() - 1 {
    } else {
        assert(items.drop_last()[i] == items[i]);
        lemma_decode_records_fail(items.drop_last(), i);
    }
}

/// Reads an optional string field, exactly as `opt_string_field`
/// describes; the outer `None` is the shape error.
pub(crate) fn field_opt_string(fields: &Vec<(String, JsonValue)>, key: &str) -> (r: Option<
    Option<String>,
>)
    ensures
        match r {
            Some(o) => opt_string_field(fields@, key@) == Some(view_opt_string(o)),
            None => opt_string_field(fields@, key@) is None,
        },
{
    match lookup_field(fields, key) {
        None => Some(None),
        Some(JsonValue::Null) => Some(None),
        Some(JsonValue::Str(s)) => Some(Some(s.clone())),
        Some(_) => None,
    }
}

/// Reads a required string field, exactly as `req_string_field`
/// describes.
pub(crate) fn field_req_string(fields: &Vec<(String, JsonValue)>, key: &str) -> (r: Option<
    String,
>)
    ensures
        match r {
            Some(s) => req_string_field(fields@, key@) == Some(s@),
            None => req_string_field(fields@, key@) is None,
        },
{
    match lookup_field(fields, key) {
        Some(JsonValue::Str(s)) => Some(s.clone()),
        _ => None,
    }
}

/// Decodes one `data` entry, exactly as `decode_record` describes.
pub fn decode_record_value(v: &JsonValue) -> (r: Result<TagRecord, DecodeError>)
    ensures
        match r {
            Ok(rec) => decode_record(*v) == Some(rec@),
            Err(e) => decode_record(*v) is None && e == DecodeError::UnexpectedShape,
        },
{
    match v {
        JsonValue::Obj(fields) => {
            let name = match lookup_field(fields, "tagName") {
                Some(JsonValue::Str(s)) => s.clone(),
                _ => {
                    return Err(DecodeError::UnexpectedShape);
                },
            };
            let ctx = match lookup_field(fields, "tagContext") {
                Some(JsonValue::Obj(ctx_fields)) => ctx_fields,
                _ => {
                    return Err(DecodeError::UnexpectedShape);
                },
            };
            let historian_item_id = match field_opt_string(ctx, "historianItemId") {
                Some(o) => o,
                None => {
                    return Err(DecodeError::UnexpectedShape);
                },
            };
            let source_item_id = match field_opt_string(ctx, "sourceItemId") {
                Some(o) => o,
                None => {
                    return Err(DecodeError::UnexpectedShape);
                },
            };
            let oldest_timestamp = match field_req_string(ctx, "oldestTimeStamp") {
                Some(s) => s,
                None => {
                    return Err(DecodeError::UnexpectedShape);
                },
            };
            let latest_timestamp = match field_req_string(ctx, "latestTimeStamp") {
                Some(s) => s,
                None => {
                    return Err(DecodeError::UnexpectedShape);
                },
            };
            Ok(
                TagRecord {
                    tag_name: name,
                    historian_item_id,
                    source_item_id,
                    oldest_timestamp,
                    latest_timestamp,
                },
            )
        },
        _ => Err(DecodeError::UnexpectedShape),
    }
}

/// Decodes a parsed context response, exactly as `spec_decode_response`
/// describes: `Ok` if and only if the document has the required shape.
pub fn decode_context(v: &JsonValue) -> (r: Result<Vec<TagRecord>, DecodeError>)
    ensures
        match spec_decode_response(*v) {
            Some(rs) => r matches Ok(recs) && recs.deep_view() == rs,
            None => r matches Err(e) && e == DecodeError::UnexpectedShape,
        },
{
    match v {
        JsonValue::Obj(fields) => match lookup_field(fields, "data") {
            Some(JsonValue::Arr(items)) => {
                let mut out: Vec<TagRecord> = Vec::new();
                let n: usize = items.len();
                assert(out.deep_view() =~= Seq::<TagRecordV>::empty());
                for i in 0..n
                    invariant
                        n == items@.len(),
                        *v == JsonValue::Obj(*fields),
                        lookup(fields@, "data"@) == Some(JsonValue::Arr(*items)),
                        decode_records(items@.take(i as int)) == Some(out.deep_view()),
                {
                    let ghost prev = out.deep_view();
                    match decode_record_value(&items[i]) {
                        Ok(rec) => {
                            let ghost rv = rec@;
                            out.push(rec);
                            assert(out.deep_view() =~= prev.push(rv));
                        },
                        Err(e) => {
                            proof {
                                lemma_decode_records_fail(items@, i as int);
                            }
                            return Err(e);
                        },
                    }
                    assert(items@.take(i + 1).drop_last() =~= items@.take(i as int));
                    assert(items@.take(i + 1).last() == items@[i as int]);
                }
                assert(items@.take(n as int) =~= items@);
                Ok(out)
            },
            _ => Err(DecodeError::UnexpectedShape),
        },
        _ => Err(DecodeError::UnexpectedShape),
    }
}

/// Context decode from raw response text: invalid JSON and shape errors
/// are told apart, and `Ok` comes exactly when both steps succeed.
pub fn decode_context_body(body: &str) -> (r: Result<Vec<TagRecord>, DecodeError>)
    ensures
        match json_parse(body@) {
            Some(v) => match spec_decode_response(v) {
                Some(rs) => r matches Ok(recs) && recs.deep_view() == rs,
                None => r matches Err(e) && e == DecodeError::UnexpectedShape,
            },
            None => r matches Err(e) && e == DecodeError::InvalidJson,
        },
{
    match parse_json(body) {
        Some(v) => decode_context(&v),
        None => Err(DecodeError::InvalidJson),
    }
}

} // verus!
