//! The tabular and plain-text exporters. Both turn the record list into
//! the full file content as text; writing the file is the caller's step.

use vstd::prelude::*;
use crate::records::{TagRecord, TagRecordV};
use crate::strbuild::push_char;

verus! {

/// An optional field renders as its text, or as nothing when absent.
pub open spec fn opt_text(o: Option<Seq<char>>) -> Seq<char> {
    match o {
        Some(s) => s,
        None => Seq::empty(),
    }
}

/// Lines joined with one newline after every line, the last included.
pub open spec fn unlines(ls: Seq<Seq<char>>) -> Seq<char>
    decreases ls.len(),
{
    if ls.len() == 0 {
        Seq::empty()
    } else {
        unlines(ls.drop_last()) + ls.last() + "\n"@
    }
}

/// Joins finished lines into file text, as `unlines` describes.
pub fn join_lines(lines: &Vec<String>) -> (s: String)
    ensures
        s@ == unlines(lines.deep_view()),
{
    let mut out = String::new();
    let ghost dv = lines.deep_view();
    let n: usize = lines.len();
    assert(unlines(dv.take(0)) =~= Seq::<char>::empty());
    for i in 0..n
        invariant
            n == lines@.len(),
            dv == lines.deep_view(),
            out@ == unlines(dv.take(i as int)),
    {
        out.append(lines[i].as_str());
        out.append("\n");
        proof {
            assert(dv.take(i + 1).drop_last() =~= dv.take(i as int));
            assert(dv.take(i + 1).last() == dv[i as int]);
            assert(dv[i as int] == lines@[i as int]@);
            assert(out@ =~= unlines(dv.take(i + 1)));
        }
    }
    assert(dv.take(n as int) =~= dv);
    out
}

// ----- tabular -----

/// The characters that force a tabular field into quotes.
pub open spec fn csv_special(c: char) -> bool {
    c == ',' || c == '"' || c == '\n' || c == '\r'
}

pub open spec fn needs_quoting(s: Seq<char>) -> bool {
    exists|i: int| 0 <= i < s.len() && csv_special(s[i])
}

/// The field's text with every double quote doubled.
pub open spec fn doubled_quotes(s: Seq<char>) -> Seq<char>
    decreases s.len(),
{
    if s.len() == 0 {
        Seq::empty()
    } else {
        doubled_quotes(s.drop_last()) + (if s.last() == '"' {
            seq!['"', '"']
        } else {
            seq![s.last()]
        })
    }
}

/// Standard field escaping: quoted, with doubled quotes, exactly when
/// the field holds a delimiter, a quote or a line break.
pub open spec fn csv_field(s: Seq<char>) -> Seq<char> {
    if needs_quoting(s) {
        seq!['"'] + doubled_quotes(s) + seq!['"']
    } else {
        s
    }
}

pub open spec fn csv_row(r: TagRecordV) -> Seq<char> {
    csv_field(r.tag_name) + ","@ + csv_field(opt_text(r.historian_item_id)) + ","@ + csv_field(
        opt_text(r.source_item_id),
    ) + ","@ + csv_field(r.oldest_timestamp) + ","@ + csv_field(r.latest_timestamp)
}

pub open spec fn csv_header() -> Seq<char> {
    "tag_name,historian_item_id,source_item_id,oldest_time_stamp,latest_time_stamp"@
}

/// The rows of the tabular export: the fixed header first, then one row
/// per record, in record order.
pub open spec fn spec_csv_rows(rs: Seq<TagRecordV>) -> Seq<Seq<char>> {
    seq![csv_header()] + rs.map_values(|r: TagRecordV| csv_row(r))
}

pub open spec fn spec_csv_text(rs: Seq<TagRecordV>) -> Seq<char> {
    unlines(spec_csv_rows(rs))
}

/// Row-count law: the tabular export has exactly one row per record plus
/// one header row, and the header is fixed and first.
pub proof fn lemma_csv_row_count(rs: Seq<TagRecordV>)
    ensures
        spec_csv_rows(rs).len() == rs.len() + 1,
        spec_csv_rows(rs)[0] == csv_header(),
        forall|i: int|
            0 <= i < rs.len() ==> spec_csv_rows(rs)[i + 1] == csv_row(#[trigger] rs[i]),
{
}

fn field_needs_quoting(field: &str) -> (b: bool)
    ensures
        b == needs_quoting(field@),
{
    let n: usize = field.unicode_len();
    for i in 0..n
        invariant
            n == field@.len(),
            forall|j: int| 0 <= j < i ==> !csv_special(#[trigger] field@[j]),
    {
        let c = field.get_char(i);
        if c == ',' || c == '"' || c == '\n' || c == '\r' {
            assert(csv_special(field@[i as int]));
            return true;
        }
    }
    false
}

fn append_csv_field(out: &mut String, field: &str)
    ensures
        final(out)@ == old(out)@ + csv_field(field@),
{
    if !field_needs_quoting(field) {
        out.append(field);
    } else {
        push_char(out, '"');
        let n: usize = field.unicode_len();
        assert(doubled_quotes(field@.take(0)) =~= Seq::<char>::empty());
        assert(out@ =~= old(out)@ + seq!['"'] + doubled_quotes(field@.take(0)));
        for i in 0..n
            invariant
                n == field@.len(),
                out@ == old(out)@ + seq!['"'] + doubled_quotes(field@.take(i as int)),
        {
            let c = field.get_char(i);
            if c == '"' {
                push_char(out, '"');
                push_char(out, '"');
            } else {
                push_char(out, c);
            }
            proof {
                assert(field@.take(i + 1).drop_last() =~= field@.take(i as int));
                assert(field@.take(i + 1).last() == field@[i as int]);
                assert(out@ =~= old(out)@ + seq!['"'] + doubled_quotes(field@.take(i + 1)));
            }
        }
        assert(field@.take(n as int) =~= field@);
        push_char(out, '"');
        assert(out@ =~= old(out)@ + csv_field(field@));
    }
}

fn append_opt_field(out: &mut String, field: &Option<String>)
    ensures
        final(out)@ == old(out)@ + csv_field(opt_text(crate::records::view_opt_string(*field))),
{
    match field {
        Some(s) => append_csv_field(out, s.as_str()),
        None => {
            assert(!needs_quoting(Seq::<char>::empty()));
            assert(out@ =~= old(out)@ + csv_field(Seq::<char>::empty()));
        },
    }
}

fn csv_row_string(rec: &TagRecord) -> (s: String)
    ensures
        s@ == csv_row(rec@),
{
    let mut out = String::new();
    append_csv_field(&mut out, rec.tag_name.as_str());
    out.append(",");
    append_opt_field(&mut out, &rec.historian_item_id);
    out.append(",");
    append_opt_field(&mut out, &rec.source_item_id);
    out.append(",");
    append_csv_field(&mut out, rec.oldest_timestamp.as_str());
    out.append(",");
    append_csv_field(&mut out, rec.latest_timestamp.as_str());
    assert(out@ =~= csv_row(rec@));
    out
}

/// The tabular export as rows: exactly as `spec_csv_rows` lays them out.
pub fn csv_rows(records: &Vec<TagRecord>) -> (rows: Vec<String>)
    ensures
        rows.deep_view() == spec_csv_rows(records.deep_view()),
{
    let ghost rv = records.deep_view();
    let mut rows: Vec<String> = Vec::new();
    let mut header = String::new();
    header.append("tag_name,historian_item_id,source_item_id,oldest_time_stamp,latest_time_stamp");
    rows.push(header);
    assert(rows.deep_view() =~= spec_csv_rows(rv.take(0)));
    let n: usize = records.len();
    for i in 0..n
        invariant
            n == records@.len(),
            rv == records.deep_view(),
            rows.deep_view() == spec_csv_rows(rv.take(i as int)),
    {
        let ghost prev = rows.deep_view();
        let row = csv_row_string(&records[i]);
        let ghost rowv = row@;
        rows.push(row);
        proof {
            assert(records@[i as int].deep_view() == rv[i as int]);
            assert(rows.deep_view() =~= prev.push(rowv));
            assert(rows.deep_view() =~= spec_csv_rows(rv.take(i + 1)));
        }
    }
    assert(rv.take(n as int) =~= rv);
    rows
}

/// The whole tabular file: header row and record rows, each ended by a
/// newline.
pub fn export_csv(records: &Vec<TagRecord>) -> (s: String)
    ensures
        s@ == spec_csv_text(records.deep_view()),
{
    let rows = csv_rows(records);
    join_lines(&rows)
}

// ----- plain text -----

/// The six lines a record contributes to the text export: five content
/// lines and one blank separator.
pub open spec fn txt_block_lines(r: TagRecordV) -> Seq<Seq<char>> {
    seq![
        "TagName: "@ + r.tag_name,
        "  HistorianItemId: "@ + opt_text(r.historian_item_id),
        "  SourceItemId: "@ + opt_text(r.source_item_id),
        "  OldestTimeStamp: "@ + r.oldest_timestamp,
        "  LatestTimeStamp: "@ + r.latest_timestamp,
        Seq::<char>::empty(),
    ]
}

pub open spec fn spec_txt_lines(rs: Seq<TagRecordV>) -> Seq<Seq<char>>
    decreases rs.len(),
{
    if rs.len() == 0 {
        Seq::empty()
    } else {
        spec_txt_lines(rs.drop_last()) + txt_block_lines(rs.last())
    }
}

pub open spec fn spec_txt_text(rs: Seq<TagRecordV>) -> Seq<char> {
    unlines(spec_txt_lines(rs))
}

/// Line-count law: the text export has exactly six lines per record —
/// five content lines followed by one blank separator — and nothing
/// else; the file is those lines joined with newlines.
pub proof fn lemma_txt_line_shape(rs: Seq<TagRecordV>)
    ensures
        spec_txt_lines(rs).len() == 6 * rs.len(),
        forall|i: int|
            0 <= i < rs.len() ==> {
                let b = #[trigger] txt_block_lines(rs[i]);
                spec_txt_lines(rs)[6 * i] == b[0] && spec_txt_lines(rs)[6 * i + 1] == b[1]
                    && spec_txt_lines(rs)[6 * i + 2] == b[2] && spec_txt_lines(rs)[6 * i + 3]
                    == b[3] && spec_txt_lines(rs)[6 * i + 4] == b[4] && spec_txt_lines(rs)[6 * i
                    + 5] == Seq::<char>::empty()
            },
    decreases rs.len(),
{
    if rs.len() == 0 {
    } else {
        let prefix = rs.drop_last();
        lemma_txt_line_shape(prefix);
        assert forall|i: int| 0 <= i < rs.len() implies {
            let b = #[trigger] txt_block_lines(rs[i]);
            spec_txt_lines(rs)[6 * i] == b[0] && spec_txt_lines(rs)[6 * i + 1] == b[1]
                && spec_txt_lines(rs)[6 * i + 2] == b[2] && spec_txt_lines(rs)[6 * i + 3] == b[3]
                && spec_txt_lines(rs)[6 * i + 4] == b[4] && spec_txt_lines(rs)[6 * i + 5] == Seq::<
            char>::empty()
        } by {
            if i < rs.len() - 1 {
                assert(prefix[i] == rs[i]);
                assert(txt_block_lines(prefix[i]) == txt_block_lines(rs[i]));
            } else {
                assert(rs[i] == rs.last());
                assert(spec_txt_lines(prefix).len() == 6 * i);
            }
        }
    }
}

fn append_line(out: &mut String, prefix: &str, text: &str)
    ensures
        final(out)@ == old(out)@ + (prefix@ + text@) + "\n"@,
{
    out.append(prefix);
    out.append(text);
    out.append("\n");
    assert(out@ =~= old(out)@ + (prefix@ + text@) + "\n"@);
}

fn append_opt_line(out: &mut String, prefix: &str, text: &Option<String>)
    ensures
        final(out)@ == old(out)@ + (prefix@ + opt_text(crate::records::view_opt_string(*text)))
            + "\n"@,
{
    out.append(prefix);
    match text {
        Some(s) => out.append(s.as_str()),
        None => {},
    }
    out.append("\n");
    assert(out@ =~= old(out)@ + (prefix@ + opt_text(crate::records::view_opt_string(*text)))
        + "\n"@);
}

proof fn lemma_unlines_block(r: TagRecordV)
    ensures
        unlines(txt_block_lines(r)) == ("TagName: "@ + r.tag_name) + "\n"@ + (
        "  HistorianItemId: "@ + opt_text(r.historian_item_id)) + "\n"@ + ("  SourceItemId: "@
            + opt_text(r.source_item_id)) + "\n"@ + ("  OldestTimeStamp: "@ + r.oldest_timestamp)
            + "\n"@ + ("  LatestTimeStamp: "@ + r.latest_timestamp) + "\n"@ + "\n"@,
{
    let ls = txt_block_lines(r);
    let l5 = ls.drop_last();
    let l4 = l5.drop_last();
    let l3 = l4.drop_last();
    let l2 = l3.drop_last();
    let l1 = l2.drop_last();
    let l0 = l1.drop_last();
    assert(l0 =~= Seq::<Seq<char>>::empty());
    assert(unlines(ls) == unlines(l5) + ls[5] + "\n"@);
    assert(unlines(l5) == unlines(l4) + ls[4] + "\n"@);
    assert(unlines(l4) == unlines(l3) + ls[3] + "\n"@);
    assert(unlines(l3) == unlines(l2) + ls[2] + "\n"@);
    assert(unlines(l2) == unlines(l1) + ls[1] + "\n"@);
    assert(unlines(l1) == unlines(l0) + ls[0] + "\n"@);
    assert(ls[5] =~= Seq::<char>::empty());
    assert(unlines(ls) =~= ("TagName: "@ + r.tag_name) + "\n"@ + ("  HistorianItemId: "@
        + opt_text(r.historian_item_id)) + "\n"@ + ("  SourceItemId: "@ + opt_text(
        r.source_item_id,
    )) + "\n"@ + ("  OldestTimeStamp: "@ + r.oldest_timestamp) + "\n"@ + ("  LatestTimeStamp: "@
        + r.latest_timestamp) + "\n"@ + "\n"@);
}

proof fn lemma_unlines_add(a: Seq<Seq<char>>, b: Seq<Seq<char>>)
    ensures
        unlines(a + b) == unlines(a) + unlines(b),
    decreases b.len(),
{
    if b.len() == 0 {
        assert(a + b =~= a);
        assert(unlines(b) =~= Seq::<char>::empty());
        assert(unlines(a) + unlines(b) =~= unlines(a));
    } else {
        lemma_unlines_add(a, b.drop_last());
        assert((a + b).drop_last() =~= a + b.drop_last());
        assert((a + b).last() == b.last());
        assert(unlines(a) + unlines(b) =~= unlines(a) + unlines(b.drop_last()) + b.last() + "\n"@);
    }
}

/// The whole text export: one six-line block per record, in order.
pub fn export_txt(records: &Vec<TagRecord>) -> (s: String)
    ensures
        s@ == spec_txt_text(records.deep_view()),
{
    let ghost rv = records.deep_view();
    let mut out = String::new();
    assert(spec_txt_lines(rv.take(0)) =~= Seq::<Seq<char>>::empty());
    let n: usize = records.len();
    for i in 0..n
        invariant
            n == records@.len(),
            rv == records.deep_view(),
            out@ == spec_txt_text(rv.take(i as int)),
    {
        let ghost prev = out@;
        let rec = &records[i];
        append_line(&mut out, "TagName: ", rec.tag_name.as_str());
        append_opt_line(&mut out, "  HistorianItemId: ", &rec.historian_item_id);
        append_opt_line(&mut out, "  SourceItemId: ", &rec.source_item_id);
        append_line(&mut out, "  OldestTimeStamp: ", rec.oldest_timestamp.as_str());
        append_line(&mut out, "  LatestTimeStamp: ", rec.latest_timestamp.as_str());
        out.append("\n");
        proof {
            let r = rv[i as int];
            assert(records@[i as int].deep_view() == r);
            lemma_unlines_block(r);
            assert(out@ =~= prev + unlines(txt_block_lines(r)));
            assert(rv.take(i + 1).drop_last() =~= rv.take(i as int));
            assert(rv.take(i + 1).last() == r);
            lemma_unlines_add(spec_txt_lines(rv.take(i as int)), txt_block_lines(r));
            assert(out@ =~= spec_txt_text(rv.take(i + 1)));
        }
    }
    assert(rv.take(n as int) =~= rv);
    out
}

} // verus!
