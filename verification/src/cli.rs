//! Run-level decisions: the output-format selector, the empty-discovery
//! short circuit, and the terminal status lines.

use vstd::prelude::*;
use crate::doc::{export_json, spec_json_text};
use crate::export::{export_csv, export_txt, spec_csv_text, spec_txt_text};
use crate::records::TagRecord;

verus! {

/// The three supported output formats.
#[derive(Debug, PartialEq, Eq, Structural, Clone, Copy)]
pub enum OutputFormat {
    Csv,
    Txt,
    Json,
}

/// Maps a format flag to its selector: exactly `csv`, `txt` and `json`
/// are legal values.
pub fn parse_format(s: &str) -> (r: Option<OutputFormat>)
    ensures
        match r {
            Some(OutputFormat::Csv) => s@ == "csv"@,
            Some(OutputFormat::Txt) => s@ == "txt"@,
            Some(OutputFormat::Json) => s@ == "json"@,
            None => s@ != "csv"@ && s@ != "txt"@ && s@ != "json"@,
        },
{
    let owned: String = s.to_owned();
    if owned == String::from_str("csv") {
        Some(OutputFormat::Csv)
    } else if owned == String::from_str("txt") {
        Some(OutputFormat::Txt)
    } else if owned == String::from_str("json") {
        Some(OutputFormat::Json)
    } else {
        None
    }
}

/// The flag value a format selector stands for.
pub fn format_label(format: OutputFormat) -> (s: &'static str)
    ensures
        match format {
            OutputFormat::Csv => s@ == "csv"@,
            OutputFormat::Txt => s@ == "txt"@,
            OutputFormat::Json => s@ == "json"@,
        },
{
    match format {
        OutputFormat::Csv => "csv",
        OutputFormat::Txt => "txt",
        OutputFormat::Json => "json",
    }
}

/// The context fetch runs exactly when discovery found tags; an empty
/// discovery is a successful terminal outcome, not an error.
pub fn should_fetch_context(tags: &Vec<String>) -> (b: bool)
    ensures
        b == (tags@.len() > 0),
{
    tags.len() > 0
}

/// The informational line for the empty-discovery outcome.
pub fn no_tags_message() -> (s: &'static str)
    ensures
        s@ == "No tags found."@,
{
    "No tags found."
}

/// The confirmation line after a successful export.
pub fn success_message(output_file: &str, label: &str) -> (s: String)
    ensures
        s@ == "Data saved to "@ + output_file@ + " in "@ + label@ + " format."@,
{
    let mut out = String::new();
    out.append("Data saved to ");
    out.append(output_file);
    out.append(" in ");
    out.append(label);
    out.append(" format.");
    assert(out@ =~= "Data saved to "@ + output_file@ + " in "@ + label@ + " format."@);
    out
}

/// Dispatches to the exporter the selected format names.
pub fn export(records: &Vec<TagRecord>, format: OutputFormat) -> (s: String)
    ensures
        match format {
            OutputFormat::Csv => s@ == spec_csv_text(records.deep_view()),
            OutputFormat::Txt => s@ == spec_txt_text(records.deep_view()),
            OutputFormat::Json => s@ == spec_json_text(records.deep_view()),
        },
{
    match format {
        OutputFormat::Csv => export_csv(records),
        OutputFormat::Txt => export_txt(records),
        OutputFormat::Json => export_json(records),
    }
}

} // verus!
