use canary_context::doc::{export_json, records_from_json, records_to_json};
use canary_context::export::{csv_rows, export_csv, export_txt};
use canary_context::json::JsonValue;
use canary_context::records::TagRecord;

fn rec(
    tag_name: &str,
    historian_item_id: Option<&str>,
    source_item_id: Option<&str>,
    oldest_timestamp: &str,
    latest_timestamp: &str,
) -> TagRecord {
    TagRecord {
        tag_name: tag_name.to_string(),
        historian_item_id: historian_item_id.map(|s| s.to_string()),
        source_item_id: source_item_id.map(|s| s.to_string()),
        oldest_timestamp: oldest_timestamp.to_string(),
        latest_timestamp: latest_timestamp.to_string(),
    }
}

fn value_to_json(v: serde_json::Value) -> JsonValue {
    match v {
        serde_json::Value::Null => JsonValue::Null,
        serde_json::Value::Bool(b) => JsonValue::Bool(b),
        serde_json::Value::Number(n) => JsonValue::Num(n.to_string()),
        serde_json::Value::String(s) => JsonValue::Str(s),
        serde_json::Value::Array(a) => JsonValue::Arr(a.into_iter().map(value_to_json).collect()),
        serde_json::Value::Object(m) => {
            JsonValue::Obj(m.into_iter().map(|p| (p.0, value_to_json(p.1))).collect())
        }
    }
}

#[test]
fn csv_export_one_record() {
    let recs = vec![rec(
        "T1",
        Some("H1"),
        None,
        "2024-01-01T00:00:00Z",
        "2024-06-01T00:00:00Z",
    )];
    assert_eq!(
        export_csv(&recs),
        "tag_name,historian_item_id,source_item_id,oldest_time_stamp,latest_time_stamp\nT1,H1,,2024-01-01T00:00:00Z,2024-06-01T00:00:00Z\n"
    );
}

#[test]
fn csv_export_empty_list_is_header_only() {
    let recs: Vec<TagRecord> = Vec::new();
    assert_eq!(
        export_csv(&recs),
        "tag_name,historian_item_id,source_item_id,oldest_time_stamp,latest_time_stamp\n"
    );
}

#[test]
fn csv_rows_are_header_plus_one_per_record() {
    let recs = vec![
        rec("A", None, None, "1", "2"),
        rec("B", Some("h"), Some("s"), "3", "4"),
        rec("C", None, Some("s2"), "5", "6"),
    ];
    let rows = csv_rows(&recs);
    assert_eq!(rows.len(), recs.len() + 1);
    assert_eq!(
        rows[0],
        "tag_name,historian_item_id,source_item_id,oldest_time_stamp,latest_time_stamp"
    );
    assert_eq!(rows[1], "A,,,1,2");
    assert_eq!(rows[2], "B,h,s,3,4");
    assert_eq!(rows[3], "C,,s2,5,6");
}

#[test]
fn csv_quotes_fields_with_delimiters() {
    let recs = vec![rec("a,b", Some("say \"hi\""), None, "line\nbreak", "z")];
    let out = export_csv(&recs);
    assert_eq!(
        out,
        "tag_name,historian_item_id,source_item_id,oldest_time_stamp,latest_time_stamp\n\"a,b\",\"say \"\"hi\"\"\",,\"line\nbreak\",z\n"
    );
}

#[test]
fn csv_output_parses_back_with_a_csv_reader() {
    let recs = vec![
        rec("a,b", Some("say \"hi\""), None, "line\nbreak", "plain"),
        rec("T2", None, Some("S2"), "2021", "2022"),
    ];
    let out = export_csv(&recs);
    let mut reader = csv::Reader::from_reader(out.as_bytes());
    let rows: Vec<csv::StringRecord> = reader.records().map(|r| r.unwrap()).collect();
    assert_eq!(rows.len(), 2);
    assert_eq!(&rows[0][0], "a,b");
    assert_eq!(&rows[0][1], "say \"hi\"");
    assert_eq!(&rows[0][2], "");
    assert_eq!(&rows[0][3], "line\nbreak");
    assert_eq!(&rows[0][4], "plain");
    assert_eq!(&rows[1][0], "T2");
    assert_eq!(&rows[1][3], "2021");
}

#[test]
fn txt_export_one_record() {
    let recs = vec![rec(
        "T1",
        Some("H1"),
        None,
        "2024-01-01T00:00:00Z",
        "2024-06-01T00:00:00Z",
    )];
    assert_eq!(
        export_txt(&recs),
        "TagName: T1\n  HistorianItemId: H1\n  SourceItemId: \n  OldestTimeStamp: 2024-01-01T00:00:00Z\n  LatestTimeStamp: 2024-06-01T00:00:00Z\n\n"
    );
}

#[test]
fn txt_export_has_six_lines_per_record() {
    let recs = vec![
        rec("A", None, None, "1", "2"),
        rec("B", Some("h"), Some("s"), "3", "4"),
        rec("C", None, None, "5", "6"),
    ];
    let out = export_txt(&recs);
    let lines: Vec<&str> = out.lines().collect();
    assert_eq!(lines.len(), 6 * recs.len());
    for i in 0..recs.len() {
        assert!(lines[6 * i].starts_with("TagName: "));
        assert!(lines[6 * i + 1].starts_with("  HistorianItemId: "));
        assert!(lines[6 * i + 2].starts_with("  SourceItemId: "));
        assert!(lines[6 * i + 3].starts_with("  OldestTimeStamp: "));
        assert!(lines[6 * i + 4].starts_with("  LatestTimeStamp: "));
        assert_eq!(lines[6 * i + 5], "");
    }
}

#[test]
fn json_export_one_record() {
    let recs = vec![rec(
        "T1",
        Some("H1"),
        None,
        "2024-01-01T00:00:00Z",
        "2024-06-01T00:00:00Z",
    )];
    assert_eq!(
        export_json(&recs),
        "[\n  {\n    \"tag_name\": \"T1\",\n    \"historian_item_id\": \"H1\",\n    \"source_item_id\": null,\n    \"oldest_timestamp\": \"2024-01-01T00:00:00Z\",\n    \"latest_timestamp\": \"2024-06-01T00:00:00Z\"\n  }\n]"
    );
}

#[test]
fn json_export_empty_list() {
    let recs: Vec<TagRecord> = Vec::new();
    assert_eq!(export_json(&recs), "[]");
}

#[test]
fn json_document_round_trip() {
    let recs = vec![
        rec("T1", Some("H1"), None, "2024-01-01", "2024-06-01"),
        rec("T2", None, Some("S2"), "2020", "2021"),
        rec("", None, None, "", ""),
    ];
    let doc = records_to_json(&recs);
    let back = records_from_json(&doc).unwrap();
    assert_eq!(back, recs);
}

#[test]
fn json_text_round_trip_through_a_parser() {
    let recs = vec![
        rec("T \"quoted\"", Some("back\\slash"), None, "new\nline", "tab\there"),
        rec("T2", None, Some("S2"), "2020", "2021"),
    ];
    let text = export_json(&recs);
    let parsed: serde_json::Value = serde_json::from_str(&text).unwrap();
    let doc = value_to_json(parsed);
    let back = records_from_json(&doc).unwrap();
    assert_eq!(back, recs);
}
