//! The dictionary entry: one display text with its input code.

use vstd::prelude::*;

verus! {

/// One row of the user dictionary.
#[derive(Clone, Debug, PartialEq, Eq)]
pub struct UserDict {
    /// The text that the input method shows for the code.
    pub name: String,
    /// The simplified (phonetic) input code.
    pub simple: String,
}

/// The mathematical value of a [`UserDict`].
pub struct Row {
    /// The displayed text.
    pub name: Seq<char>,
    /// The input code.
    pub simple: Seq<char>,
}

impl Row {
    /// Both fields hold at least one character.
    pub open spec fn complete(self) -> bool {
        self.name.len() > 0 && self.simple.len() > 0
    }

    /// The row as it is displayed and written: name, a tab, code.
    pub open spec fn line(self) -> Seq<char> {
        self.name + seq!['\t'] + self.simple
    }
}

impl View for UserDict {
    type V = Row;

    open spec fn view(&self) -> Row {
        Row { name: self.name@, simple: self.simple@ }
    }
}

/// The rows that a sequence of entries stands for, in the same order.
pub open spec fn rows_of(entries: Seq<UserDict>) -> Seq<Row> {
    entries.map_values(|e: UserDict| e@)
}

/// Every row has both of its fields.
pub open spec fn all_complete(rows: Seq<Row>) -> bool {
    forall|i: int| 0 <= i < rows.len() ==> (#[trigger] rows[i]).complete()
}

impl UserDict {
    /// The entry that maps the code `simple` to the text `name`.
    pub fn new(name: String, simple: String) -> (entry: Self)
        ensures
            entry.name == name,
            entry.simple == simple,
    {
        Self { name, simple }
    }

    /// Whether neither field is empty.
    pub fn is_complete(&self) -> (complete: bool)
        ensures
            complete == self@.complete(),
    {
        !self.name.as_str().is_empty() && !self.simple.as_str().is_empty()
    }

    /// The displayed form of the entry: `name`, a tab, `simple`.
    pub fn to_line(&self) -> (line: String)
        ensures
            line@ == self@.line(),
    {
        let mut line = self.name.clone();
        line.append("\t");
        line.append(self.simple.as_str());
        proof {
            reveal_strlit("\t");
            assert("\t"@ =~= seq!['\t']);
        }
        line
    }
}

} // verus!
