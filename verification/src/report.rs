//! The run report: the lines that tell the user what was imported, and the
//! hint that is shown when the page cannot be had.

use crate::entry::{rows_of, Row, UserDict};
use vstd::prelude::*;

verus! {

/// What stands before every imported entry in the report.
pub const IMPORTED_PREFIX: &'static str = "导入: ";

/// What stands before the count in the summary line.
pub const SUMMARY_PREFIX: &'static str = "导入完成, 共导入: ";

/// What stands after the count in the summary line.
pub const SUMMARY_SUFFIX: &'static str = "个词";

/// What stands before the address in the first line of the hint.
pub const HINT_PREFIX: &'static str = "请求失败: ";

/// What stands after the address in the first line of the hint.
pub const HINT_SUFFIX: &'static str = "，请检查路径是否正确";

/// What stands before the example in the second line of the hint.
pub const EXAMPLE_PREFIX: &'static str = "例如: ";

/// An address of the expected shape: the page that shows the dictionary file.
pub const GIT_FILE_URL: &'static str =
    "https://github.com/FengYouJun520/flypy_user/blob/main/flypy_user.txt";

/// The ten digits, each at the place of its value.
pub const DIGITS: &'static str = "0123456789";

/// The digit for `d`, as a text of one character.
pub open spec fn digit_text(d: nat) -> Seq<char>
    recommends
        d < 10,
{
    DIGITS@.subrange(d as int, d as int + 1)
}

/// `n` in decimal, without leading zeros.
pub open spec fn decimal_text(n: nat) -> Seq<char>
    decreases n,
{
    if n < 10 {
        digit_text(n)
    } else {
        decimal_text(n / 10) + digit_text(n % 10)
    }
}

/// The report line of one imported row.
pub open spec fn imported_line(row: Row) -> Seq<char> {
    IMPORTED_PREFIX@ + row.line()
}

/// The summary line for `count` imported rows.
pub open spec fn summary_line(count: nat) -> Seq<char> {
    SUMMARY_PREFIX@ + decimal_text(count) + SUMMARY_SUFFIX@
}

/// The report for `rows`: one line per row, in order, then the summary with
/// their number.
pub open spec fn report_text(rows: Seq<Row>) -> Seq<Seq<char>> {
    rows.map_values(|row: Row| imported_line(row)).push(summary_line(rows.len()))
}

/// The hint for a page that could not be had at `url`: the address that was
/// asked for, and an example of a well-formed one.
pub open spec fn hint_text(url: Seq<char>) -> Seq<Seq<char>> {
    seq![HINT_PREFIX@ + url + HINT_SUFFIX@, EXAMPLE_PREFIX@ + GIT_FILE_URL@]
}

/// `n` in decimal.
pub fn decimal(n: usize) -> (text: String)
    ensures
        text@ == decimal_text(n as nat),
    decreases n,
{
    proof {
        reveal_strlit("0123456789");
    }
    if n < 10 {
        DIGITS.substring_char(n, n + 1).to_owned()
    } else {
        let mut text = decimal(n / 10);
        text.append(DIGITS.substring_char(n % 10, n % 10 + 1));
        text
    }
}

/// The lines of the report for `entries`.
pub fn report_lines(entries: &Vec<UserDict>) -> (lines: Vec<String>)
    ensures
        lines.deep_view() == report_text(rows_of(entries@)),
{
    let ghost f = |row: Row| imported_line(row);
    let mut lines: Vec<String> = Vec::new();
    let mut i: usize = 0;
    while i < entries.len()
        invariant
            i <= entries.len(),
            f == |row: Row| imported_line(row),
            lines.deep_view() == rows_of(entries@).take(i as int).map_values(f),
        decreases entries.len() - i,
    {
        let ghost before = lines.deep_view();
        let mut line = IMPORTED_PREFIX.to_owned();
        line.append(entries[i].to_line().as_str());
        lines.push(line);
        assert(lines.deep_view() =~= before.push(imported_line(entries@[i as int]@)));
        assert(rows_of(entries@).take(i + 1).map_values(f) =~= rows_of(entries@).take(
            i as int,
        ).map_values(f).push(f(rows_of(entries@)[i as int])));
        i += 1;
    }
    assert(rows_of(entries@).take(entries.len() as int) =~= rows_of(entries@));
    let ghost before = lines.deep_view();
    let mut summary = SUMMARY_PREFIX.to_owned();
    summary.append(decimal(entries.len()).as_str());
    summary.append(SUMMARY_SUFFIX);
    lines.push(summary);
    assert(lines.deep_view() =~= before.push(summary_line(entries@.len())));
    lines
}

/// The lines of the hint for a page that could not be had at `url`.
pub fn hint_lines(url: &str) -> (lines: Vec<String>)
    ensures
        lines.deep_view() == hint_text(url@),
{
    let mut first = HINT_PREFIX.to_owned();
    first.append(url);
    first.append(HINT_SUFFIX);
    let mut second = EXAMPLE_PREFIX.to_owned();
    second.append(GIT_FILE_URL);
    let mut lines: Vec<String> = Vec::new();
    lines.push(first);
    lines.push(second);
    assert(lines.deep_view() =~= hint_text(url@));
    lines
}

} // verus!
