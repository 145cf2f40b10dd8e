//! What a run does to the files: a model of the driver.
//!
//! A [`SyncRun`](crate::pipeline::SyncRun) only decides; its driver reads the
//! network and touches the files. Here the driver is given as mathematics: a
//! remote page, the two local files as byte sequences, what performing each
//! action does to them, and what may go wrong on the way. Driving a run
//! against that model shows what a whole run leaves behind, and the
//! guarantees of the merge are proved of it, whatever goes wrong.

use crate::entry::Row;
use crate::extract::extraction;
use crate::failure::Failure;
use crate::pipeline::{ActionView, EventView, RunView, Stage, EXIT_FAILURE, STATUS_OK};
use crate::report::{hint_text, report_text, summary_line};
use crate::section::{section_bytes_of, SECTION_HEADER};
use vstd::prelude::*;
use vstd::utf8::encode_utf8;

verus! {

/// The remote side, as one request finds it.
pub enum Remote {
    /// The request is answered.
    Answers { status: u16, body: Seq<char> },
    /// The request fails in transport.
    Silent,
}

/// How a write to a file ends.
pub enum Written {
    /// All of it is written.
    Whole,
    /// It fails with only so many of its first bytes written (all of them, if
    /// there are no more).
    Part(nat),
    /// It fails before anything is written.
    Refused,
}

impl Written {
    /// What of `bytes` such a write leaves in the file.
    pub open spec fn of(self, bytes: Seq<u8>) -> Seq<u8> {
        match self {
            Written::Whole => bytes,
            Written::Part(n) => if n < bytes.len() {
                bytes.take(n as int)
            } else {
                bytes
            },
            Written::Refused => Seq::empty(),
        }
    }

    /// What the driver reports of such a write.
    pub open spec fn event(self) -> EventView {
        if self is Whole {
            EventView::Completed
        } else {
            EventView::Failed
        }
    }
}

/// What the driver meets in the course of one run.
pub struct Outside {
    /// The remote side.
    pub remote: Remote,
    /// How copying to the backup ends, if it is tried.
    pub copy: Written,
    /// How appending to the local dictionary ends, if it is tried.
    pub append: Written,
    /// Whether the report can be shown.
    pub report_shown: bool,
}

/// The local dictionary and its backup; `None` where the file does not exist.
#[verifier::ext_equal]
pub struct DictFiles {
    pub live: Option<Seq<u8>>,
    pub backup: Option<Seq<u8>>,
}

impl DictFiles {
    /// The files after `action`, and what the driver reports of it. Copying
    /// and appending need the local dictionary to exist; a copy that is
    /// refused leaves no backup, one that fails later leaves a part of it.
    pub open spec fn perform(self, outside: Outside, action: ActionView) -> (DictFiles, EventView) {
        match action {
            ActionView::Fetch { .. } => match outside.remote {
                Remote::Answers { status, body } => (self, EventView::Response { status, body }),
                Remote::Silent => (self, EventView::Failed),
            },
            ActionView::ProbeBackup => (
                self,
                EventView::BackupProbed { exists: self.backup is Some },
            ),
            ActionView::CopyBackup => match self.live {
                Some(content) => if outside.copy is Refused {
                    (self, EventView::Failed)
                } else {
                    (
                        DictFiles { backup: Some(outside.copy.of(content)), ..self },
                        outside.copy.event(),
                    )
                },
                None => (self, EventView::Failed),
            },
            ActionView::Append { bytes } => match self.live {
                Some(content) => (
                    DictFiles { live: Some(content + outside.append.of(bytes)), ..self },
                    outside.append.event(),
                ),
                None => (self, EventView::Failed),
            },
            ActionView::Report { .. } => (
                self,
                if outside.report_shown {
                    EventView::Completed
                } else {
                    EventView::Failed
                },
            ),
            ActionView::Exit { .. } => (self, EventView::Completed),
        }
    }
}

/// The run and the files once the driver has gone on from `run` to the end.
pub open spec fn driven(run: RunView, outside: Outside, files: DictFiles) -> (RunView, DictFiles)
    decreases 7 - run.stage.rank(),
{
    if run.stage.terminal() || run.stage is Start || run.stage is Extracting {
        (run, files)
    } else {
        let (after, event) = files.perform(outside, run.pending());
        driven(run.next(event), outside, after)
    }
}

/// What the driver performs from `run` to the end, in order. The last
/// request, to leave, is not among them.
pub open spec fn performed(run: RunView, outside: Outside, files: DictFiles) -> Seq<ActionView>
    decreases 7 - run.stage.rank(),
{
    if run.stage.terminal() || run.stage is Start || run.stage is Extracting {
        Seq::empty()
    } else {
        let (after, event) = files.perform(outside, run.pending());
        seq![run.pending()] + performed(run.next(event), outside, after)
    }
}

/// One whole run for the page at `url`: where it ends, and the files after it.
pub open spec fn synced(url: Seq<char>, outside: Outside, files: DictFiles) -> (RunView, DictFiles) {
    driven(RunView::fresh(url).begun(), outside, files)
}

/// The files after one run for each of `requests` in turn; a request is the
/// address that is asked for and what the run meets.
pub open spec fn synced_all(requests: Seq<(Seq<char>, Outside)>, files: DictFiles) -> DictFiles
    decreases requests.len(),
{
    if requests.len() == 0 {
        files
    } else {
        let (url, outside) = requests.last();
        synced(url, outside, synced_all(requests.drop_last(), files)).1
    }
}

/// The rows that a run for `outside` extracts, if it gets that far.
pub open spec fn rows_found(outside: Outside) -> Option<Seq<Row>> {
    match outside.remote {
        Remote::Answers { status, body } => if status == STATUS_OK {
            extraction(body)
        } else {
            None
        },
        Remote::Silent => None,
    }
}

/// What one run comes to, case by case.
pub proof fn lemma_synced(url: Seq<char>, outside: Outside, files: DictFiles)
    ensures
        synced(url, outside, files).0.url == url,
        ({
            let (run, after) = synced(url, outside, files);
            match rows_found(outside) {
                None => {
                    &&& run.stage == Stage::Failed(
                        if outside.remote is Answers && outside.remote->status == STATUS_OK {
                            Failure::PatternRejected
                        } else {
                            Failure::RemoteUnavailable
                        },
                    )
                    &&& after == files
                },
                Some(rows) => {
                    let copied = files.backup is Some || (files.live is Some
                        && outside.copy is Whole);
                    &&& run.rows == rows
                    &&& run.stage == if !copied {
                        Stage::Failed(Failure::BackupFailed)
                    } else if files.live is Some && outside.append is Whole {
                        Stage::Done
                    } else {
                        Stage::Failed(Failure::WriteFailed)
                    }
                    &&& after.backup == if files.backup is Some || files.live is None
                        || outside.copy is Refused {
                        files.backup
                    } else {
                        Some(outside.copy.of(files.live->0))
                    }
                    &&& after.live == if copied && files.live is Some {
                        Some(files.live->0 + outside.append.of(section_bytes_of(rows)))
                    } else {
                        files.live
                    }
                },
            }
        }),
{
    reveal_with_fuel(driven, 7);
}

/// A run asks for the page once, and for nothing more if it cannot be had.
/// Else it asks once whether the backup exists, copies only if it does not,
/// and only after a copy that went well, or none, appends, once, the one
/// section of its rows; the report comes last. Nothing is tried again.
pub proof fn law_run_performs_each_action_once(url: Seq<char>, outside: Outside, files: DictFiles)
    ensures
        ({
            let run = synced(url, outside, files).0;
            let actions = performed(RunView::fresh(url).begun(), outside, files);
            let fetch = seq![ActionView::Fetch { url }];
            let probe = seq![ActionView::ProbeBackup];
            let copy = if files.backup is Some {
                Seq::empty()
            } else {
                seq![ActionView::CopyBackup]
            };
            let append = seq![ActionView::Append { bytes: section_bytes_of(run.rows) }];
            let report = seq![ActionView::Report { lines: report_text(run.rows) }];
            match run.stage {
                Stage::Done => actions == fetch + probe + copy + append + report,
                Stage::Failed(Failure::WriteFailed) => actions == fetch + probe + copy + append,
                Stage::Failed(Failure::BackupFailed) => actions == fetch + probe + copy,
                _ => actions == fetch,
            }
        }),
{
    reveal_with_fuel(driven, 7);
    reveal_with_fuel(performed, 7);
}

/// A page that cannot be had changes nothing: the run fails as unavailable
/// and asks to leave with the exit code of a failure and the hint, and the
/// local dictionary and its backup are as they were, a missing backup still
/// missing.
pub proof fn law_unavailable_page_changes_nothing(
    url: Seq<char>,
    outside: Outside,
    files: DictFiles,
)
    requires
        outside.remote is Silent || outside.remote->status != STATUS_OK,
    ensures
        synced(url, outside, files).0.stage == Stage::Failed(Failure::RemoteUnavailable),
        synced(url, outside, files).0.pending() == (ActionView::Exit {
            code: EXIT_FAILURE,
            messages: hint_text(url),
        }),
        synced(url, outside, files).1 == files,
{
    lemma_synced(url, outside, files);
}

/// A page in which no row is found is no failure: if nothing goes wrong
/// with the files, the run still ends as done, having appended the header
/// alone and reported a count of zero.
pub proof fn law_empty_page_still_done(
    url: Seq<char>,
    outside: Outside,
    content: Seq<u8>,
    backup: Option<Seq<u8>>,
)
    requires
        rows_found(outside) == Some(Seq::<Row>::empty()),
        outside.copy is Whole,
        outside.append is Whole,
    ensures
        ({
            let (run, after) = synced(url, outside, DictFiles { live: Some(content), backup });
            &&& run.stage == Stage::Done
            &&& run.rows.len() == 0
            &&& after.live == Some(content + encode_utf8(SECTION_HEADER@))
            &&& report_text(run.rows) == seq![summary_line(0)]
        }),
{
    let files = DictFiles { live: Some(content), backup };
    lemma_synced(url, outside, files);
    let rows = synced(url, outside, files).0.rows;
    assert(rows =~= Seq::<Row>::empty());
    assert(rows.map_values(|row: Row| crate::section::written_line(row)) =~= Seq::<
        Seq<char>,
    >::empty());
    assert(crate::section::written_lines(rows) =~= Seq::<char>::empty());
    assert(crate::section::section_text(rows) =~= SECTION_HEADER@);
    assert(report_text(rows) =~= seq![summary_line(0)]);
}

/// The backup is made at most once, and before anything is appended. A run
/// that finds a backup leaves it as it is. A run that finds none gets as
/// far as appending only with a backup that holds the local dictionary as
/// it was before the run.
pub proof fn law_backup_made_once(url: Seq<char>, outside: Outside, files: DictFiles)
    ensures
        ({
            let (run, after) = synced(url, outside, files);
            &&& files.backup is Some ==> after.backup == files.backup
            &&& files.backup is None && after.live != files.live ==> after.backup == files.live
            &&& files.backup is None && run.stage is Done ==> after.backup == files.live
        }),
{
    lemma_synced(url, outside, files);
    let added = outside.append.of(section_bytes_of(synced(url, outside, files).0.rows));
    if files.live is Some && added.len() == 0 {
        assert(files.live->0 + added =~= files.live->0);
    }
}

/// However many runs follow, and whatever goes wrong in them, a backup that
/// exists is never written again.
pub proof fn law_backup_never_overwritten(
    requests: Seq<(Seq<char>, Outside)>,
    files: DictFiles,
)
    requires
        files.backup is Some,
    ensures
        synced_all(requests, files).backup == files.backup,
    decreases requests.len(),
{
    if requests.len() > 0 {
        law_backup_never_overwritten(requests.drop_last(), files);
        let (url, outside) = requests.last();
        law_backup_made_once(url, outside, synced_all(requests.drop_last(), files));
    }
}

/// A run only appends. The local dictionary after it begins with all that
/// it held before; what was added is the section of the rows of the run,
/// or, where the append failed, a part of that section from its beginning. A
/// run that did not get as far as appending added nothing.
pub proof fn law_run_only_appends(url: Seq<char>, outside: Outside, files: DictFiles)
    ensures
        ({
            let (run, after) = synced(url, outside, files);
            match files.live {
                Some(content) => {
                    &&& after.live is Some
                    &&& content.is_prefix_of(after.live->0)
                    &&& after.live->0.skip(content.len() as int).is_prefix_of(
                        section_bytes_of(run.rows),
                    )
                    &&& run.stage is Done ==> after.live->0 == content + section_bytes_of(
                        run.rows,
                    )
                    &&& !(run.stage is Done) && !(run.stage == Stage::Failed(
                        Failure::WriteFailed,
                    )) ==> after.live->0 == content
                },
                None => after.live is None,
            }
        }),
{
    lemma_synced(url, outside, files);
    if let Some(content) = files.live {
        let section = section_bytes_of(synced(url, outside, files).0.rows);
        let added = outside.append.of(section);
        assert(added.is_prefix_of(section));
        assert((content + added).skip(content.len() as int) =~= added);
        assert(content.skip(content.len() as int) =~= Seq::<u8>::empty());
    }
}

/// However many runs follow, and whatever goes wrong in them, what the
/// local dictionary held at first stays at its beginning, byte for byte.
pub proof fn law_prior_content_stays(
    requests: Seq<(Seq<char>, Outside)>,
    content: Seq<u8>,
    backup: Option<Seq<u8>>,
)
    ensures
        ({
            let after = synced_all(requests, DictFiles { live: Some(content), backup });
            &&& after.live is Some
            &&& content.is_prefix_of(after.live->0)
        }),
    decreases requests.len(),
{
    let files = DictFiles { live: Some(content), backup };
    if requests.len() > 0 {
        law_prior_content_stays(requests.drop_last(), content, backup);
        let (url, outside) = requests.last();
        law_run_only_appends(url, outside, synced_all(requests.drop_last(), files));
    }
}

} // verus!
