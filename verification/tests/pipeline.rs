use canary_context::cli::{
    export, format_label, no_tags_message, parse_format, should_fetch_context, success_message,
    OutputFormat,
};
use canary_context::context::decode_context_body;
use canary_context::discovery::discover_tags;
use canary_context::errors::DecodeError;
use canary_context::requests::{browse_request_body, context_request_body, endpoint_url};

#[test]
fn discovery_reads_tags_in_order() {
    let body = r#"{"statusCode":"Good","tags":["Site.A","Site.B","Site.C"]}"#;
    let tags = discover_tags(body).unwrap();
    assert_eq!(tags, vec!["Site.A", "Site.B", "Site.C"]);
}

#[test]
fn discovery_missing_tags_is_empty() {
    let tags = discover_tags(r#"{"statusCode":"Good"}"#).unwrap();
    assert!(tags.is_empty());
}

#[test]
fn discovery_null_tags_is_empty() {
    let tags = discover_tags(r#"{"tags":null}"#).unwrap();
    assert!(tags.is_empty());
}

#[test]
fn discovery_non_array_tags_is_empty() {
    let tags = discover_tags(r#"{"tags":"Site.A"}"#).unwrap();
    assert!(tags.is_empty());
}

#[test]
fn discovery_non_object_response_is_empty() {
    let tags = discover_tags("[1,2,3]").unwrap();
    assert!(tags.is_empty());
}

#[test]
fn discovery_keeps_only_strings_in_order() {
    let body = r#"{"tags":["T1",1,null,"T2",{"x":1},["T9"],"T3",true]}"#;
    let tags = discover_tags(body).unwrap();
    assert_eq!(tags, vec!["T1", "T2", "T3"]);
}

#[test]
fn discovery_invalid_json_is_an_error() {
    let r = discover_tags("{not json");
    assert_eq!(r.unwrap_err(), DecodeError::InvalidJson);
}

#[test]
fn context_decodes_full_records() {
    let body = r#"{"data":[{"tagName":"T1","tagContext":{"historianItemId":"H1","sourceItemId":"S1","oldestTimeStamp":"2024-01-01T00:00:00Z","latestTimeStamp":"2024-06-01T00:00:00Z"}},{"tagName":"T2","tagContext":{"historianItemId":null,"oldestTimeStamp":"2023-01-01T00:00:00Z","latestTimeStamp":"2023-06-01T00:00:00Z"}}]}"#;
    let recs = decode_context_body(body).unwrap();
    assert_eq!(recs.len(), 2);
    assert_eq!(recs[0].tag_name, "T1");
    assert_eq!(recs[0].historian_item_id.as_deref(), Some("H1"));
    assert_eq!(recs[0].source_item_id.as_deref(), Some("S1"));
    assert_eq!(recs[0].oldest_timestamp, "2024-01-01T00:00:00Z");
    assert_eq!(recs[0].latest_timestamp, "2024-06-01T00:00:00Z");
    assert_eq!(recs[1].tag_name, "T2");
    assert_eq!(recs[1].historian_item_id, None);
    assert_eq!(recs[1].source_item_id, None);
}

#[test]
fn context_missing_oldest_time_stamp_is_a_decode_error() {
    let body = r#"{"data":[{"tagName":"T1","tagContext":{"historianItemId":"H1","latestTimeStamp":"2024-06-01T00:00:00Z"}}]}"#;
    let r = decode_context_body(body);
    assert_eq!(r.unwrap_err(), DecodeError::UnexpectedShape);
}

#[test]
fn context_non_string_required_field_is_a_decode_error() {
    let body = r#"{"data":[{"tagName":"T1","tagContext":{"oldestTimeStamp":7,"latestTimeStamp":"2024-06-01T00:00:00Z"}}]}"#;
    let r = decode_context_body(body);
    assert_eq!(r.unwrap_err(), DecodeError::UnexpectedShape);
}

#[test]
fn context_missing_data_is_a_decode_error() {
    let r = decode_context_body(r#"{"tags":["T1"]}"#);
    assert_eq!(r.unwrap_err(), DecodeError::UnexpectedShape);
}

#[test]
fn context_invalid_json_is_an_error() {
    let r = decode_context_body("not json");
    assert_eq!(r.unwrap_err(), DecodeError::InvalidJson);
}

#[test]
fn context_extra_fields_are_ignored() {
    let body = r#"{"statusCode":"Good","data":[{"tagName":"T1","extra":1,"tagContext":{"oldestTimeStamp":"a","latestTimeStamp":"b","unknown":[]}}]}"#;
    let recs = decode_context_body(body).unwrap();
    assert_eq!(recs.len(), 1);
    assert_eq!(recs[0].tag_name, "T1");
    assert_eq!(recs[0].historian_item_id, None);
    assert_eq!(recs[0].oldest_timestamp, "a");
    assert_eq!(recs[0].latest_timestamp, "b");
}

#[test]
fn browse_request_body_layout() {
    let body = browse_request_body("Postman Test", "Pacific Standard Time", "tok");
    assert_eq!(
        body,
        r#"{"application":"Postman Test","timezone":"Pacific Standard Time","apiToken":"tok","path":"","deep":true,"search":""}"#
    );
    let v: serde_json::Value = serde_json::from_str(&body).unwrap();
    assert_eq!(v["application"], "Postman Test");
    assert_eq!(v["deep"], true);
    assert_eq!(v["path"], "");
}

#[test]
fn context_request_body_layout() {
    let tags = vec!["T1".to_string(), "T2".to_string()];
    let body = context_request_body("tok", &tags);
    assert_eq!(body, r#"{"apiToken":"tok","tags":["T1","T2"]}"#);
}

#[test]
fn request_bodies_escape_special_characters() {
    let body = browse_request_body("a\"b", "c\\d", "e\nf");
    let v: serde_json::Value = serde_json::from_str(&body).unwrap();
    assert_eq!(v["application"], "a\"b");
    assert_eq!(v["timezone"], "c\\d");
    assert_eq!(v["apiToken"], "e\nf");
}

#[test]
fn endpoint_url_layout() {
    let url = endpoint_url("https://host:55236", "api/v2", "browseTags");
    assert_eq!(url, "https://host:55236/api/v2/browseTags");
}

#[test]
fn parse_format_accepts_the_three_formats() {
    assert_eq!(parse_format("csv"), Some(OutputFormat::Csv));
    assert_eq!(parse_format("txt"), Some(OutputFormat::Txt));
    assert_eq!(parse_format("json"), Some(OutputFormat::Json));
    assert_eq!(parse_format("xml"), None);
    assert_eq!(parse_format(""), None);
}

#[test]
fn format_labels_match_the_flags() {
    assert_eq!(format_label(OutputFormat::Csv), "csv");
    assert_eq!(format_label(OutputFormat::Txt), "txt");
    assert_eq!(format_label(OutputFormat::Json), "json");
}

#[test]
fn empty_discovery_short_circuits_with_a_message() {
    let tags: Vec<String> = Vec::new();
    assert!(!should_fetch_context(&tags));
    assert_eq!(no_tags_message(), "No tags found.");
    let some = vec!["T1".to_string()];
    assert!(should_fetch_context(&some));
}

#[test]
fn success_message_names_file_and_format() {
    let m = success_message("out.csv", "csv");
    assert_eq!(m, "Data saved to out.csv in csv format.");
}

#[test]
fn partial_context_scenario_exports_one_row() {
    let tags = discover_tags(r#"{"tags":["T1","T2"]}"#).unwrap();
    assert_eq!(tags, vec!["T1", "T2"]);
    assert!(should_fetch_context(&tags));
    let body = r#"{"data":[{"tagName":"T1","tagContext":{"historianItemId":"H1","sourceItemId":null,"oldestTimeStamp":"2024-01-01T00:00:00Z","latestTimeStamp":"2024-06-01T00:00:00Z"}}]}"#;
    let recs = decode_context_body(body).unwrap();
    let out = export(&recs, OutputFormat::Csv);
    assert_eq!(
        out,
        "tag_name,historian_item_id,source_item_id,oldest_time_stamp,latest_time_stamp\nT1,H1,,2024-01-01T00:00:00Z,2024-06-01T00:00:00Z\n"
    );
}
