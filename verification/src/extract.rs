//! The row extractor: from the markup of a rendered source page to the
//! dictionary entries that its lines hold.
//!
//! The page shows every line of the dictionary in a table cell of its own.
//! One regular expression finds those cells and captures the text of each;
//! that matching is the work of the `regex` crate. What a captured text
//! yields is decided, and proved, here: see [`crate::fields`].

use crate::entry::{all_complete, rows_of, Row, UserDict};
use crate::failure::Failure;
use crate::fields::{fields_of, split_fields};
use regex::Regex;
use vstd::prelude::*;

verus! {

/// The pattern of one rendered line: a table cell with a line number and the
/// class of a code line, and in it the text of the line.
pub const ROW_PATTERN: &'static str =
    r#"<td id="LC\d+" class="blob-code blob-code-inner js-file-line">(?P<text>.*?)</td>"#;

/// The capture group of [`ROW_PATTERN`] that holds the text of the line.
pub const TEXT_GROUP: &'static str = "text";

/// `regex::Error`, the reason for which the engine rejects a pattern. It is
/// only carried from the engine to where it is turned into a [`Failure`].
#[verifier::external_type_specification]
#[verifier::external_body]
pub struct ExRegexError(regex::Error);

/// Whether `regex::Regex::new` accepts `pattern`.
pub uninterp spec fn pattern_compiles(pattern: Seq<char>) -> bool;

/// What `regex::Regex::captures_iter` finds in `haystack` for an accepted
/// `pattern`: for each match, in the order of the matches, the text of the
/// group named `group`, or `None` where the pattern has no such group or the
/// group took no part in the match.
pub uninterp spec fn group_captures(
    pattern: Seq<char>,
    haystack: Seq<char>,
    group: Seq<char>,
) -> Seq<Option<Seq<char>>>;

/// Compiles `pattern` with `regex::Regex::new` and walks
/// `regex::Regex::captures_iter` over `haystack`, reading one group of every
/// match by its name (`regex::Captures::name`).
///
/// Trusted: the call fails exactly when the engine rejects the pattern, and
/// otherwise returns the engine's matches, which depend on the three texts
/// alone. Nothing is claimed about what the engine matches.
#[verifier::external_body]
fn capture_group(pattern: &str, haystack: &str, group: &str) -> (found: Result<
    Vec<Option<String>>,
    regex::Error,
>)
    ensures
        found is Ok <==> pattern_compiles(pattern@),
        found matches Ok(texts) ==> texts.deep_view() == group_captures(
            pattern@,
            haystack@,
            group@,
        ),
{
    let re = Regex::new(pattern)?;
    Ok(
        re.captures_iter(haystack).map(
            |caps| caps.name(group).map(|m| m.as_str().to_owned()),
        ).collect(),
    )
}

/// The row that one match yields: the fields of its text, if the group took
/// part in the match.
pub open spec fn row_of(text: Option<Seq<char>>) -> Option<Row> {
    match text {
        Some(text) => fields_of(text),
        None => None,
    }
}

/// The rows that a sequence of matches yields: those of [`row_of`], in the
/// order of the matches.
pub open spec fn kept_rows(texts: Seq<Option<Seq<char>>>) -> Seq<Row> {
    texts.filter_map(|text: Option<Seq<char>>| row_of(text))
}

/// What extraction with `pattern` yields for `body`: nothing where the engine
/// rejects the pattern, else the rows kept of its matches.
pub open spec fn extraction_with(pattern: Seq<char>, body: Seq<char>) -> Option<Seq<Row>> {
    if pattern_compiles(pattern) {
        Some(kept_rows(group_captures(pattern, body, TEXT_GROUP@)))
    } else {
        None
    }
}

/// What extraction yields for `body` with [`ROW_PATTERN`].
pub open spec fn extraction(body: Seq<char>) -> Option<Seq<Row>> {
    extraction_with(ROW_PATTERN@, body)
}

/// No row is kept that lacks a field.
pub proof fn lemma_kept_rows_complete(texts: Seq<Option<Seq<char>>>)
    ensures
        all_complete(kept_rows(texts)),
    decreases texts.len(),
{
    if texts.len() > 0 {
        lemma_kept_rows_complete(texts.drop_last());
    }
}

/// Where every match holds a row, each match gives one: there are as many
/// rows as matches, and the row at each place is that of the match at that
/// place. So `N` well-formed lines give `N` entries, in document order.
pub proof fn law_well_formed_matches_all_kept(texts: Seq<Option<Seq<char>>>)
    requires
        forall|i: int| 0 <= i < texts.len() ==> row_of(#[trigger] texts[i]) is Some,
    ensures
        kept_rows(texts).len() == texts.len(),
        forall|i: int|
            0 <= i < texts.len() ==> Some(#[trigger] kept_rows(texts)[i]) == row_of(texts[i]),
    decreases texts.len(),
{
    if texts.len() > 0 {
        let front = texts.drop_last();
        law_well_formed_matches_all_kept(front);
        assert(kept_rows(texts) == kept_rows(front).push(row_of(texts.last())->0));
    }
}

/// Where no match holds a row, none is kept: a page of malformed lines, like
/// a page without lines, gives no rows.
pub proof fn law_malformed_matches_all_dropped(texts: Seq<Option<Seq<char>>>)
    requires
        forall|i: int| 0 <= i < texts.len() ==> row_of(#[trigger] texts[i]) is None,
    ensures
        kept_rows(texts).len() == 0,
    decreases texts.len(),
{
    if texts.len() > 0 {
        law_malformed_matches_all_dropped(texts.drop_last());
    }
}

/// Turns the texts that the row pattern captured into entries, keeping the
/// order. A text that holds no row is malformed and is left out.
pub fn entries_from_captures(texts: &Vec<Option<String>>) -> (entries: Vec<UserDict>)
    ensures
        rows_of(entries@) == kept_rows(texts.deep_view()),
        all_complete(rows_of(entries@)),
{
    let ghost f = |text: Option<Seq<char>>| row_of(text);
    let mut entries: Vec<UserDict> = Vec::new();
    let mut i: usize = 0;
    while i < texts.len()
        invariant
            i <= texts.len(),
            f == |text: Option<Seq<char>>| row_of(text),
            rows_of(entries@) == texts.deep_view().take(i as int).filter_map(f),
        decreases texts.len() - i,
    {
        let ghost before = entries@;
        proof {
            texts.deep_view().lemma_filter_map_take_succ(f, i as int);
        }
        if let Some(text) = &texts[i] {
            if let Some(entry) = split_fields(text.as_str()) {
                entries.push(entry);
                assert(rows_of(entries@) =~= rows_of(before).push(entries@.last()@));
            }
        }
        i += 1;
    }
    proof {
        assert(texts.deep_view().take(texts.len() as int) =~= texts.deep_view());
        lemma_kept_rows_complete(texts.deep_view());
    }
    entries
}

/// Extracts the entries of `body` with the pattern `pattern`, whose group
/// [`TEXT_GROUP`] holds the text of a line.
pub fn extract_with(pattern: &str, body: &str) -> (found: Result<Vec<UserDict>, Failure>)
    ensures
        match found {
            Ok(entries) => extraction_with(pattern@, body@) == Some(rows_of(entries@))
                && all_complete(rows_of(entries@)),
            Err(failure) => failure == Failure::PatternRejected && extraction_with(
                pattern@,
                body@,
            ) is None,
        },
{
    match capture_group(pattern, body, TEXT_GROUP) {
        Ok(texts) => Ok(entries_from_captures(&texts)),
        Err(_) => Err(Failure::PatternRejected),
    }
}

/// Extracts the entries of a page body, in document order. A body without
/// rows gives no entries, which is no failure.
pub fn extract(body: &str) -> (found: Result<Vec<UserDict>, Failure>)
    ensures
        match found {
            Ok(entries) => extraction(body@) == Some(rows_of(entries@)) && all_complete(
                rows_of(entries@),
            ),
            Err(failure) => failure == Failure::PatternRejected && extraction(body@) is None,
        },
{
    extract_with(ROW_PATTERN, body)
}

} // verus!
