//! The structured-document exporter and its inverse: records rendered
//! as an indented JSON array of flat objects, absent optional fields as
//! explicit nulls, and a decoder that takes such a document back to the
//! record list.

use vstd::prelude::*;
use crate::context::{opt_string_field, req_string_field};
use crate::json::{lookup, JsonValue};
use crate::records::{view_opt_string, TagRecord, TagRecordV};
use crate::strbuild::{append_json_string, json_string_lit};

verus! {

// ----- the document as text -----

pub open spec fn opt_json_text(o: Option<Seq<char>>) -> Seq<char> {
    match o {
        Some(s) => json_string_lit(s),
        None => "null"@,
    }
}

/// One record as an indented JSON object with the in-memory field names.
pub open spec fn record_object_text(r: TagRecordV) -> Seq<char> {
    "  {\n    \"tag_name\": "@ + json_string_lit(r.tag_name)
        + ",\n    \"historian_item_id\": "@ + opt_json_text(r.historian_item_id)
        + ",\n    \"source_item_id\": "@ + opt_json_text(r.source_item_id)
        + ",\n    \"oldest_timestamp\": "@ + json_string_lit(r.oldest_timestamp)
        + ",\n    \"latest_timestamp\": "@ + json_string_lit(r.latest_timestamp) + "\n  }"@
}

pub open spec fn joined_objects(rs: Seq<TagRecordV>) -> Seq<char>
    decreases rs.len(),
{
    if rs.len() == 0 {
        Seq::empty()
    } else if rs.len() == 1 {
        record_object_text(rs[0])
    } else {
        joined_objects(rs.drop_last()) + ",\n"@ + record_object_text(rs.last())
    }
}

/// The whole document: a pretty-printed array of record objects.
pub open spec fn spec_json_text(rs: Seq<TagRecordV>) -> Seq<char> {
    if rs.len() == 0 {
        "[]"@
    } else {
        "[\n"@ + joined_objects(rs) + "\n]"@
    }
}

fn append_opt_json(out: &mut String, o: &Option<String>)
    ensures
        final(out)@ == old(out)@ + opt_json_text(view_opt_string(*o)),
{
    match o {
        Some(s) => append_json_string(out, s.as_str()),
        None => out.append("null"),
    }
}

fn append_record_object(out: &mut String, rec: &TagRecord)
    ensures
        final(out)@ == old(out)@ + record_object_text(rec@),
{
    out.append("  {\n    \"tag_name\": ");
    append_json_string(out, rec.tag_name.as_str());
    out.append(",\n    \"historian_item_id\": ");
    append_opt_json(out, &rec.historian_item_id);
    out.append(",\n    \"source_item_id\": ");
    append_opt_json(out, &rec.source_item_id);
    out.append(",\n    \"oldest_timestamp\": ");
    append_json_string(out, rec.oldest_timestamp.as_str());
    out.append(",\n    \"latest_timestamp\": ");
    append_json_string(out, rec.latest_timestamp.as_str());
    out.append("\n  }");
    assert(out@ =~= old(out)@ + record_object_text(rec@));
}

/// The structured-document export, exactly as `spec_json_text` lays it
/// out.
pub fn export_json(records: &Vec<TagRecord>) -> (s: String)
    ensures
        s@ == spec_json_text(records.deep_view()),
{
    let ghost rv = records.deep_view();
    let n: usize = records.len();
    let mut out = String::new();
    if n == 0 {
        out.append("[]");
        assert(out@ =~= spec_json_text(rv));
        return out;
    }
    out.append("[\n");
    assert(joined_objects(rv.take(0)) =~= Seq::<char>::empty());
    for i in 0..n
        invariant
            n == records@.len(),
            rv == records.deep_view(),
            out@ == "[\n"@ + joined_objects(rv.take(i as int)),
    {
        if i > 0 {
            out.append(",\n");
        }
        append_record_object(&mut out, &records[i]);
        proof {
            assert(records@[i as int].deep_view() == rv[i as int]);
            assert(rv.take(i + 1).drop_last() =~= rv.take(i as int));
            assert(rv.take(i + 1).last() == rv[i as int]);
            if i == 0 {
                assert(out@ =~= "[\n"@ + joined_objects(rv.take(1)));
            } else {
                assert(out@ =~= "[\n"@ + joined_objects(rv.take(i + 1)));
            }
        }
    }
    assert(rv.take(n as int) =~= rv);
    out.append("\n]");
    assert(out@ =~= spec_json_text(rv));
    out
}

// ----- the document as a value tree, and the round trip -----

/// An optional field's value in the document: a string, or null for an
/// absent field.
pub open spec fn opt_value_rep(o: Option<Seq<char>>, v: JsonValue) -> bool {
    match (o, v) {
        (Some(s), JsonValue::Str(t)) => t@ == s,
        (None, JsonValue::Null) => true,
        _ => false,
    }
}

/// The document object that stands for one record: the five fields, in
/// a fixed order, under the in-memory field names.
pub open spec fn record_object_rep(v: JsonValue, r: TagRecordV) -> bool {
    match v {
        JsonValue::Obj(fields) => {
            let fs = fields@;
            fs.len() == 5 && fs[0].0@ == "tag_name"@ && (fs[0].1 matches JsonValue::Str(n) && n@
                == r.tag_name) && fs[1].0@ == "historian_item_id"@ && opt_value_rep(
                r.historian_item_id,
                fs[1].1,
            ) && fs[2].0@ == "source_item_id"@ && opt_value_rep(r.source_item_id, fs[2].1)
                && fs[3].0@ == "oldest_timestamp"@ && (fs[3].1 matches JsonValue::Str(o) && o@
                == r.oldest_timestamp) && fs[4].0@ == "latest_timestamp"@ && (
            fs[4].1 matches JsonValue::Str(l) && l@ == r.latest_timestamp)
        },
        _ => false,
    }
}

/// The document that stands for a record list: one object per record,
/// in order.
pub open spec fn records_doc_rep(v: JsonValue, rs: Seq<TagRecordV>) -> bool {
    match v {
        JsonValue::Arr(items) => items@.len() == rs.len() && forall|i: int|
            0 <= i < rs.len() ==> record_object_rep(#[trigger] items@[i], rs[i]),
        _ => false,
    }
}

fn opt_to_value(o: &Option<String>) -> (v: JsonValue)
    ensures
        opt_value_rep(view_opt_string(*o), v),
{
    match o {
        Some(s) => JsonValue::Str(s.clone()),
        None => JsonValue::Null,
    }
}

/// Builds the document value for a record list, as `records_doc_rep`
/// describes it.
pub fn records_to_json(records: &Vec<TagRecord>) -> (v: JsonValue)
    ensures
        records_doc_rep(v, records.deep_view()),
{
    let ghost rv = records.deep_view();
    let mut items: Vec<JsonValue> = Vec::new();
    let n: usize = records.len();
    for i in 0..n
        invariant
            n == records@.len(),
            rv == records.deep_view(),
            items@.len() == i,
            forall|k: int| 0 <= k < i ==> record_object_rep(#[trigger] items@[k], rv[k]),
    {
        let rec = &records[i];
        let mut fields: Vec<(String, JsonValue)> = Vec::new();
        fields.push(("tag_name".to_owned(), JsonValue::Str(rec.tag_name.clone())));
        fields.push(("historian_item_id".to_owned(), opt_to_value(&rec.historian_item_id)));
        fields.push(("source_item_id".to_owned(), opt_to_value(&rec.source_item_id)));
        fields.push(("oldest_timestamp".to_owned(), JsonValue::Str(rec.oldest_timestamp.clone())));
        fields.push(("latest_timestamp".to_owned(), JsonValue::Str(rec.latest_timestamp.clone())));
        let obj = JsonValue::Obj(fields);
        proof {
            assert(records@[i as int].deep_view() == rv[i as int]);
            assert(record_object_rep(obj, rv[i as int]));
        }
        items.push(obj);
    }
    JsonValue::Arr(items)
}

/// One document object decoded back to a record: the same field rules
/// as the wire decoder, under the in-memory field names.
pub open spec fn decode_doc_record(v: JsonValue) -> Option<TagRecordV> {
    match v {
        JsonValue::Obj(fields) => match (req_string_field(fields@, "tag_name"@),
        opt_string_field(fields@, "historian_item_id"@), opt_string_field(
            fields@,
            "source_item_id"@,
        ), req_string_field(fields@, "oldest_timestamp"@), req_string_field(
            fields@,
            "latest_timestamp"@,
        )) {
            (Some(n), Some(h), Some(s), Some(o), Some(l)) => Some(
                TagRecordV {
                    tag_name: n,
                    historian_item_id: h,
                    source_item_id: s,
                    oldest_timestamp: o,
                    latest_timestamp: l,
                },
            ),
            _ => None,
        },
        _ => None,
    }
}

pub open spec fn decode_doc_records(items: Seq<JsonValue>) -> Option<Seq<TagRecordV>>
    decreases items.len(),
{
    if items.len() == 0 {
        Some(Seq::empty())
    } else {
        match (decode_doc_records(items.drop_last()), decode_doc_record(items.last())) {
            (Some(rs), Some(r)) => Some(rs.push(r)),
            _ => None,
        }
    }
}

/// What parsing an exported document back yields: the record list, or
/// nothing when the document does not have the exporter's shape.
pub open spec fn spec_doc_decode(v: JsonValue) -> Option<Seq<TagRecordV>> {
    match v {
        JsonValue::Arr(items) => decode_doc_records(items@),
        _ => None,
    }
}

proof fn lemma_record_round_trip(v: JsonValue, r: TagRecordV)
    requires
        record_object_rep(v, r),
    ensures
        decode_doc_record(v) == Some(r),
{
    reveal_strlit("tag_name");
    reveal_strlit("historian_item_id");
    reveal_strlit("source_item_id");
    reveal_strlit("oldest_timestamp");
    reveal_strlit("latest_timestamp");
    let fs = v->Obj_0@;
    let f1 = fs.drop_first();
    let f2 = f1.drop_first();
    let f3 = f2.drop_first();
    let f4 = f3.drop_first();
    assert(f1[0] == fs[1] && f1[1] == fs[2] && f1[2] == fs[3] && f1[3] == fs[4]);
    assert(f2[0] == fs[2] && f2[1] == fs[3] && f2[2] == fs[4]);
    assert(f3[0] == fs[3] && f3[1] == fs[4]);
    assert(f4[0] == fs[4]);
    assert(f2 =~= f1.drop_first());
    assert(f3 =~= f2.drop_first());
    assert(f4 =~= f3.drop_first());
    assert("tag_name"@.len() == 8);
    assert("historian_item_id"@.len() == 17);
    assert("source_item_id"@.len() == 14);
    assert("oldest_timestamp"@.len() == 16);
    assert("latest_timestamp"@.len() == 16);
    assert("oldest_timestamp"@[0] == 'o' && "latest_timestamp"@[0] == 'l');
    assert(lookup(fs, "tag_name"@) == Some(fs[0].1));
    let k1 = "historian_item_id"@;
    assert(lookup(fs, k1) == lookup(f1, k1));
    assert(lookup(f1, k1) == Some(f1[0].1));
    let k2 = "source_item_id"@;
    assert(lookup(fs, k2) == lookup(f1, k2));
    assert(lookup(f1, k2) == lookup(f2, k2));
    assert(lookup(f2, k2) == Some(f2[0].1));
    let k3 = "oldest_timestamp"@;
    assert(lookup(fs, k3) == lookup(f1, k3));
    assert(lookup(f1, k3) == lookup(f2, k3));
    assert(lookup(f2, k3) == lookup(f3, k3));
    assert(lookup(f3, k3) == Some(f3[0].1));
    let k4 = "latest_timestamp"@;
    assert(lookup(fs, k4) == lookup(f1, k4));
    assert(lookup(f1, k4) == lookup(f2, k4));
    assert(lookup(f2, k4) == lookup(f3, k4));
    assert(lookup(f3, k4) == lookup(f4, k4));
    assert(lookup(f4, k4) == Some(f4[0].1));
}

proof fn lemma_doc_records_round_trip(items: Seq<JsonValue>, rs: Seq<TagRecordV>)
    requires
        items.len() == rs.len(),
        forall|i: int| 0 <= i < rs.len() ==> record_object_rep(#[trigger] items[i], rs[i]),
    ensures
        decode_doc_records(items) == Some(rs),
    decreases rs.len(),
{
    if rs.len() == 0 {
        assert(rs =~= Seq::<TagRecordV>::empty());
    } else {
        assert(forall|i: int|
            0 <= i < rs.len() - 1 ==> #[trigger] items.drop_last()[i] == items[i]);
        lemma_doc_records_round_trip(items.drop_last(), rs.drop_last());
        lemma_record_round_trip(items.last(), rs.last());
        assert(rs.drop_last().push(rs.last()) =~= rs);
    }
}

/// Round-trip law: a document that represents a record list — as the
/// structured-document exporter builds it — decodes back to exactly
/// that list, absent optional fields included.
pub proof fn lemma_doc_round_trip(v: JsonValue, rs: Seq<TagRecordV>)
    requires
        records_doc_rep(v, rs),
    ensures
        spec_doc_decode(v) == Some(rs),
{
    lemma_doc_records_round_trip(v->Arr_0@, rs);
}

/// Decodes a document value back to records, exactly as
/// `spec_doc_decode` describes.
pub fn records_from_json(v: &JsonValue) -> (r: Option<Vec<TagRecord>>)
    ensures
        match spec_doc_decode(*v) {
            Some(rs) => r matches Some(recs) && recs.deep_view() == rs,
            None => r is None,
        },
{
    match v {
        JsonValue::Arr(items) => {
            let mut out: Vec<TagRecord> = Vec::new();
            let n: usize = items.len();
            assert(out.deep_view() =~= Seq::<TagRecordV>::empty());
            for i in 0..n
                invariant
                    n == items@.len(),
                    *v == JsonValue::Arr(*items),
                    decode_doc_records(items@.take(i as int)) == Some(out.deep_view()),
            {
                match decode_doc_value(&items[i]) {
                    Some(rec) => {
                        let ghost prev = out.deep_view();
                        let ghost rv = rec@;
                        out.push(rec);
                        assert(out.deep_view() =~= prev.push(rv));
                    },
                    None => {
                        proof {
                            lemma_doc_records_fail(items@, i as int);
                        }
                        return None;
                    },
                }
                assert(items@.take(i + 1).drop_last() =~= items@.take(i as int));
                assert(items@.take(i + 1).last() == items@[i as int]);
            }
            assert(items@.take(n as int) =~= items@);
            Some(out)
        },
        _ => None,
    }
}

proof fn lemma_doc_records_fail(items: Seq<JsonValue>, i: int)
    requires
        0 <= i < items.len(),
        decode_doc_record(items[i]) is None,
    ensures
        decode_doc_records(items) is None,
    decreases items.len(),
{
    if i == items.len() - 1 {
    } else {
        assert(items.drop_last()[i] == items[i]);
        lemma_doc_records_fail(items.drop_last(), i);
    }
}

fn decode_doc_value(v: &JsonValue) -> (r: Option<TagRecord>)
    ensures
        match r {
            Some(rec) => decode_doc_record(*v) == Some(rec@),
            None => decode_doc_record(*v) is None,
        },
{
    match v {
        JsonValue::Obj(fields) => {
            let tag_name = match crate::context::field_req_string(fields, "tag_name") {
                Some(s) => s,
                None => {
                    return None;
                },
            };
            let historian_item_id = match crate::context::field_opt_string(
                fields,
                "historian_item_id",
            ) {
                Some(o) => o,
                None => {
                    return None;
                },
            };
            let source_item_id = match crate::context::field_opt_string(fields, "source_item_id") {
                Some(o) => o,
                None => {
                    return None;
                },
            };
            let oldest_timestamp = match crate::context::field_req_string(
                fields,
                "oldest_timestamp",
            ) {
                Some(s) => s,
                None => {
                    return None;
                },
            };
            let latest_timestamp = match crate::context::field_req_string(
                fields,
                "latest_timestamp",
            ) {
                Some(s) => s,
                None => {
                    return None;
                },
            };
            Some(
                TagRecord {
                    tag_name,
                    historian_item_id,
                    source_item_id,
                    oldest_timestamp,
                    latest_timestamp,
                },
            )
        },
        _ => None,
    }
}

} // verus!
