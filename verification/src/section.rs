//! The merge writer's text: the section that one run appends to the local
//! dictionary.

use crate::entry::{rows_of, Row, UserDict};
use crate::fields::{fields_of, law_split_fields_are_clean};
use vstd::prelude::*;
use vstd::utf8::encode_utf8;

verus! {

/// The marker that opens the section of every run: two newlines, the label
/// of the imported entries, and a newline.
pub const SECTION_HEADER: &'static str = "\n\n用户自定义词库\n";

/// The line that is written for one row: the row and a newline.
pub open spec fn written_line(row: Row) -> Seq<char> {
    row.line() + seq!['\n']
}

/// The lines of `rows`, one after the other.
pub open spec fn written_lines(rows: Seq<Row>) -> Seq<char> {
    rows.map_values(|row: Row| written_line(row)).flatten()
}

/// The section for `rows`: the header, once, then one line per row in order.
pub open spec fn section_text(rows: Seq<Row>) -> Seq<char> {
    SECTION_HEADER@ + written_lines(rows)
}

/// The bytes that are appended for `rows`: the section in UTF-8.
pub open spec fn section_bytes_of(rows: Seq<Row>) -> Seq<u8> {
    encode_utf8(section_text(rows))
}

/// What a reader of the dictionary takes from one written line: the text
/// before the newline, split at its first tab. A line without a newline at
/// its end, or without a tab, is not a row.
pub open spec fn read_line(line: Seq<char>) -> Option<Row> {
    if line.len() > 0 && line.last() == '\n' {
        let text = line.drop_last();
        match text.index_of_first('\t') {
            Some(at) => Some(Row { name: text.take(at), simple: text.skip(at + 1) }),
            None => None,
        }
    } else {
        None
    }
}

/// A written line reads back as the row it was written for, if the name of
/// the row holds no tab.
pub proof fn law_written_line_reads_back(row: Row)
    requires
        !row.name.contains('\t'),
    ensures
        read_line(written_line(row)) == Some(row),
{
    let text = row.line();
    let at: int = row.name.len() as int;
    assert(written_line(row).drop_last() =~= text);
    assert(text[at] == '\t');
    text.index_of_first_ensures('\t');
    let found: int = text.index_of_first('\t')->0;
    if found < at {
        assert(row.name[found] == text[found]);
        assert(row.name.contains('\t'));
    }
    assert(text.take(at) =~= row.name);
    assert(text.skip(at + 1) =~= row.simple);
}

/// Every row that extraction splits off reads back from its written line:
/// the name of such a row holds no whitespace, so no tab.
pub proof fn law_extracted_row_reads_back(text: Seq<char>)
    requires
        fields_of(text) is Some,
    ensures
        read_line(written_line(fields_of(text)->0)) == fields_of(text),
{
    let row = fields_of(text)->0;
    law_split_fields_are_clean(text);
    if row.name.contains('\t') {
        let j: int = choose|j: int| 0 <= j < row.name.len() && row.name[j] == '\t';
        assert(crate::fields::is_space(row.name[j]));
    }
    law_written_line_reads_back(row);
}

/// One more row adds its line at the end.
proof fn lemma_written_lines_push(rows: Seq<Row>, row: Row)
    ensures
        written_lines(rows.push(row)) == written_lines(rows) + written_line(row),
{
    let f = |row: Row| written_line(row);
    let one = seq![written_line(row)];
    assert(rows.push(row).map_values(f) =~= rows.map_values(f) + one);
    vstd::seq_lib::lemma_flatten_concat(rows.map_values(f), one);
    one.lemma_flatten_one_element();
}

/// The text of the section for `entries`.
pub fn render_section(entries: &Vec<UserDict>) -> (text: String)
    ensures
        text@ == section_text(rows_of(entries@)),
{
    let mut text = SECTION_HEADER.to_owned();
    let mut i: usize = 0;
    assert(rows_of(entries@).take(0) =~= Seq::empty());
    assert(written_lines(Seq::empty()) =~= Seq::empty());
    while i < entries.len()
        invariant
            i <= entries.len(),
            text@ == section_text(rows_of(entries@).take(i as int)),
        decreases entries.len() - i,
    {
        let line = entries[i].to_line();
        proof {
            let rows = rows_of(entries@);
            lemma_written_lines_push(rows.take(i as int), rows[i as int]);
            assert(rows.take(i + 1) =~= rows.take(i as int).push(rows[i as int]));
            reveal_strlit("\n");
            assert("\n"@ =~= seq!['\n']);
        }
        text.append(line.as_str());
        text.append("\n");
        i += 1;
    }
    assert(rows_of(entries@).take(entries.len() as int) =~= rows_of(entries@));
    text
}

/// The bytes to append for `entries`.
pub fn section_bytes(entries: &Vec<UserDict>) -> (bytes: Vec<u8>)
    ensures
        bytes@ == section_bytes_of(rows_of(entries@)),
{
    render_section(entries).as_str().as_bytes_vec()
}

} // verus!
