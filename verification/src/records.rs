//! The in-memory record type shared by the decoder and all exporters.

use vstd::prelude::*;

verus! {

/// One tag's metadata as returned by the historian server. Timestamps are
/// opaque text and are passed through verbatim; the two item identifiers
/// may be absent upstream.
#[derive(Debug)]
pub struct TagRecord {
    pub tag_name: String,
    pub historian_item_id: Option<String>,
    pub source_item_id: Option<String>,
    pub oldest_timestamp: String,
    pub latest_timestamp: String,
}

/// Mathematical model of a `TagRecord`: each text field as a sequence of
/// characters.
pub ghost struct TagRecordV {
    pub tag_name: Seq<char>,
    pub historian_item_id: Option<Seq<char>>,
    pub source_item_id: Option<Seq<char>>,
    pub oldest_timestamp: Seq<char>,
    pub latest_timestamp: Seq<char>,
}

pub open spec fn view_opt_string(o: Option<String>) -> Option<Seq<char>> {
    match o {
        Some(s) => Some(s@),
        None => None,
    }
}

impl View for TagRecord {
    type V = TagRecordV;

    open spec fn view(&self) -> TagRecordV {
        TagRecordV {
            tag_name: self.tag_name@,
            historian_item_id: view_opt_string(self.historian_item_id),
            source_item_id: view_opt_string(self.source_item_id),
            oldest_timestamp: self.oldest_timestamp@,
            latest_timestamp: self.latest_timestamp@,
        }
    }
}

impl DeepView for TagRecord {
    type V = TagRecordV;

    open spec fn deep_view(&self) -> TagRecordV {
        self.view()
    }
}

fn opt_string_eq(a: &Option<String>, b: &Option<String>) -> (r: bool)
    ensures
        r == (view_opt_string(*a) == view_opt_string(*b)),
{
    match (a, b) {
        (Some(x), Some(y)) => *x == *y,
        (None, None) => true,
        _ => false,
    }
}

impl PartialEq for TagRecord {
    fn eq(&self, other: &TagRecord) -> (r: bool) {
        self.tag_name == other.tag_name && opt_string_eq(
            &self.historian_item_id,
            &other.historian_item_id,
        ) && opt_string_eq(&self.source_item_id, &other.source_item_id)
            && self.oldest_timestamp == other.oldest_timestamp && self.latest_timestamp
            == other.latest_timestamp
    }
}

impl vstd::std_specs::cmp::PartialEqSpecImpl for TagRecord {
    open spec fn obeys_eq_spec() -> bool {
        true
    }

    open spec fn eq_spec(&self, other: &TagRecord) -> bool {
        self@ == other@
    }
}

} // verus!
