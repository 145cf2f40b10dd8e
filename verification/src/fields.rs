//! The two fields of one rendered line.
//!
//! The text of a line is split at its first run of whitespace: what stands
//! before it is the name, what follows it, without whitespace at its end, is
//! the code. A line that lacks one of the two is no row.

use crate::entry::{Row, UserDict};
use vstd::prelude::*;

verus! {

/// The characters that separate fields: those that Unicode classes as
/// `White_Space`.
pub open spec fn is_space(c: char) -> bool {
    let u: u32 = c as u32;
    ||| 0x09 <= u <= 0x0D
    ||| u == 0x20
    ||| u == 0x85
    ||| u == 0xA0
    ||| u == 0x1680
    ||| 0x2000 <= u <= 0x200A
    ||| u == 0x2028
    ||| u == 0x2029
    ||| u == 0x202F
    ||| u == 0x205F
    ||| u == 0x3000
}

/// How many characters at the front of `text` are no whitespace.
pub open spec fn word_len(text: Seq<char>) -> nat
    decreases text.len(),
{
    if text.len() == 0 || is_space(text[0]) {
        0
    } else {
        1 + word_len(text.drop_first())
    }
}

/// How many characters at the front of `text` are whitespace.
pub open spec fn gap_len(text: Seq<char>) -> nat
    decreases text.len(),
{
    if text.len() == 0 || !is_space(text[0]) {
        0
    } else {
        1 + gap_len(text.drop_first())
    }
}

/// `text` without the whitespace at its end.
pub open spec fn trim_end(text: Seq<char>) -> Seq<char>
    decreases text.len(),
{
    if text.len() > 0 && is_space(text.last()) {
        trim_end(text.drop_last())
    } else {
        text
    }
}

/// The row that the text of one line holds: the name is what stands before
/// the first whitespace, the code is what follows the first run of
/// whitespace, trimmed at its end. There is no row where either is empty,
/// so none where the text holds no whitespace.
pub open spec fn fields_of(text: Seq<char>) -> Option<Row> {
    let name = text.take(word_len(text) as int);
    let after = text.skip(word_len(text) as int);
    let simple = trim_end(after.skip(gap_len(after) as int));
    if name.len() > 0 && simple.len() > 0 {
        Some(Row { name, simple })
    } else {
        None
    }
}

/// The front of `text` up to `end` is its first word.
proof fn lemma_word_len(text: Seq<char>, end: int)
    requires
        0 <= end <= text.len(),
        forall|j: int| 0 <= j < end ==> !is_space(text[j]),
        end == text.len() || is_space(text[end]),
    ensures
        word_len(text) == end,
    decreases end,
{
    if end > 0 {
        lemma_word_len(text.drop_first(), end - 1);
    }
}

/// The front of `text` up to `end` is its first run of whitespace.
proof fn lemma_gap_len(text: Seq<char>, end: int)
    requires
        0 <= end <= text.len(),
        forall|j: int| 0 <= j < end ==> is_space(text[j]),
        end == text.len() || !is_space(text[end]),
    ensures
        gap_len(text) == end,
    decreases end,
{
    if end > 0 {
        lemma_gap_len(text.drop_first(), end - 1);
    }
}

/// `text` from `end` on is the whitespace at its end.
proof fn lemma_trim_end(text: Seq<char>, end: int)
    requires
        0 <= end <= text.len(),
        forall|j: int| end <= j < text.len() ==> is_space(text[j]),
        end == 0 || !is_space(text[end - 1]),
    ensures
        trim_end(text) == text.take(end),
    decreases text.len() - end,
{
    if end < text.len() {
        lemma_trim_end(text.drop_last(), end);
        assert(text.drop_last().take(end) =~= text.take(end));
    } else {
        assert(text.take(end) =~= text);
    }
}

/// The first word of `text` holds no whitespace.
proof fn lemma_word_has_no_space(text: Seq<char>)
    ensures
        word_len(text) <= text.len(),
        forall|j: int| 0 <= j < word_len(text) ==> !is_space(#[trigger] text[j]),
    decreases text.len(),
{
    if text.len() > 0 && !is_space(text[0]) {
        let rest = text.drop_first();
        lemma_word_has_no_space(rest);
        assert forall|j: int| 0 <= j < word_len(text) implies !is_space(#[trigger] text[j]) by {
            if j > 0 {
                assert(text[j] == rest[j - 1]);
            }
        }
    }
}

/// What follows the first run of whitespace of `text` begins with no
/// whitespace.
proof fn lemma_gap_ends_at_word(text: Seq<char>)
    ensures
        gap_len(text) <= text.len(),
        gap_len(text) < text.len() ==> !is_space(text[gap_len(text) as int]),
    decreases text.len(),
{
    if text.len() > 0 && is_space(text[0]) {
        lemma_gap_ends_at_word(text.drop_first());
    }
}

/// Trimming takes characters from the end only, and leaves no whitespace
/// there.
proof fn lemma_trim_end_is_front(text: Seq<char>)
    ensures
        trim_end(text).is_prefix_of(text),
        trim_end(text).len() > 0 ==> !is_space(trim_end(text).last()),
    decreases text.len(),
{
    if text.len() > 0 && is_space(text.last()) {
        lemma_trim_end_is_front(text.drop_last());
    }
}

/// A name without whitespace, a run of whitespace, and a code that neither
/// begins nor ends with whitespace are split into that name and that code,
/// whatever whitespace follows the code.
pub proof fn law_two_fields_are_split(
    name: Seq<char>,
    gap: Seq<char>,
    simple: Seq<char>,
    tail: Seq<char>,
)
    requires
        name.len() > 0,
        forall|j: int| 0 <= j < name.len() ==> !is_space(name[j]),
        gap.len() > 0,
        forall|j: int| 0 <= j < gap.len() ==> is_space(gap[j]),
        simple.len() > 0,
        !is_space(simple.first()),
        !is_space(simple.last()),
        forall|j: int| 0 <= j < tail.len() ==> is_space(tail[j]),
    ensures
        fields_of(name + gap + simple + tail) == Some(Row { name, simple }),
{
    let text = name + gap + simple + tail;
    let after = gap + simple + tail;
    let rest = simple + tail;
    lemma_word_len(text, name.len() as int);
    assert(text.take(name.len() as int) =~= name);
    assert(text.skip(name.len() as int) =~= after);
    lemma_gap_len(after, gap.len() as int);
    assert(after.skip(gap.len() as int) =~= rest);
    lemma_trim_end(rest, simple.len() as int);
    assert(rest.take(simple.len() as int) =~= simple);
}

/// A text without whitespace holds no row: there is nothing to split it at.
pub proof fn law_text_without_space_is_no_row(text: Seq<char>)
    requires
        forall|j: int| 0 <= j < text.len() ==> !is_space(text[j]),
    ensures
        fields_of(text) is None,
{
    lemma_word_len(text, text.len() as int);
    assert(text.skip(text.len() as int) =~= Seq::<char>::empty());
}

/// The fields of a row that was split off are clean: neither is empty, the
/// name holds no whitespace, and the code neither begins nor ends with it.
pub proof fn law_split_fields_are_clean(text: Seq<char>)
    requires
        fields_of(text) is Some,
    ensures
        ({
            let row = fields_of(text)->0;
            &&& row.complete()
            &&& forall|j: int| 0 <= j < row.name.len() ==> !is_space(#[trigger] row.name[j])
            &&& !is_space(row.simple.first())
            &&& !is_space(row.simple.last())
        }),
{
    let after = text.skip(word_len(text) as int);
    let rest = after.skip(gap_len(after) as int);
    lemma_word_has_no_space(text);
    lemma_gap_ends_at_word(after);
    lemma_trim_end_is_front(rest);
}

/// Whether `c` separates fields.
pub fn is_separator(c: char) -> (space: bool)
    ensures
        space == is_space(c),
{
    let u: u32 = c as u32;
    (0x09 <= u && u <= 0x0D) || u == 0x20 || u == 0x85 || u == 0xA0 || u == 0x1680 || (0x2000
        <= u && u <= 0x200A) || u == 0x2028 || u == 0x2029 || u == 0x202F || u == 0x205F || u
        == 0x3000
}

/// The characters of `text`, so that each can be had by its place.
fn characters(text: &str) -> (chars: Vec<char>)
    ensures
        chars@ == text@,
{
    let mut chars: Vec<char> = Vec::new();
    for c in it: text.chars()
        invariant
            it.seq() == text@,
            chars@ == it.seq().take(it.index() as int),
    {
        chars.push(c);
    }
    chars
}

/// Splits the text of one line into its entry, if it holds one.
pub fn split_fields(text: &str) -> (entry: Option<UserDict>)
    ensures
        match entry {
            Some(entry) => fields_of(text@) == Some(entry@),
            None => fields_of(text@) is None,
        },
{
    let chars = characters(text);
    let len: usize = chars.len();
    let mut name_end: usize = 0;
    while name_end < len && !is_separator(chars[name_end])
        invariant
            name_end <= len == chars@.len(),
            forall|j: int| 0 <= j < name_end ==> !is_space(chars@[j]),
        decreases len - name_end,
    {
        name_end += 1;
    }
    let mut code_start: usize = name_end;
    while code_start < len && is_separator(chars[code_start])
        invariant
            name_end <= code_start <= len == chars@.len(),
            forall|j: int| name_end <= j < code_start ==> is_space(chars@[j]),
        decreases len - code_start,
    {
        code_start += 1;
    }
    let mut code_end: usize = len;
    while code_end > code_start && is_separator(chars[code_end - 1])
        invariant
            code_start <= code_end <= len == chars@.len(),
            forall|j: int| code_end <= j < len ==> is_space(chars@[j]),
        decreases code_end,
    {
        code_end -= 1;
    }
    proof {
        let after = text@.skip(name_end as int);
        let rest = text@.skip(code_start as int);
        lemma_word_len(text@, name_end as int);
        lemma_gap_len(after, code_start - name_end);
        assert(after.skip(code_start - name_end) =~= rest);
        lemma_trim_end(rest, code_end - code_start);
        assert(rest.take(code_end - code_start) =~= text@.subrange(
            code_start as int,
            code_end as int,
        ));
        assert(text@.take(name_end as int) =~= text@.subrange(0, name_end as int));
    }
    if name_end == 0 || code_start == code_end {
        None
    } else {
        let name = text.substring_char(0, name_end).to_owned();
        let simple = text.substring_char(code_start, code_end).to_owned();
        Some(UserDict::new(name, simple))
    }
}

} // verus!
