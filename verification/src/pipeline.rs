//! The run: one pass of fetch, extract, back up, write and report, as a state
//! machine that decides and leaves the outside work to its driver.
//!
//! The driver begins a run, performs the [`Action`] it is handed, and reports
//! what came of it as an [`Event`]; [`SyncRun::step`] answers with the next
//! action, until that is [`Action::Exit`].

use crate::entry::{all_complete, rows_of, Row, UserDict};
use crate::extract::{
    extract, extraction, group_captures, lemma_kept_rows_complete, ROW_PATTERN, TEXT_GROUP,
};
use crate::failure::Failure;
use crate::report::{hint_lines, hint_text, report_lines, report_text};
use crate::section::{section_bytes, section_bytes_of};
use vstd::prelude::*;

verus! {

/// The only response status with which a page is taken.
pub const STATUS_OK: u16 = 200;

/// The exit code of a run that merged.
pub const EXIT_SUCCESS: i32 = 0;

/// The exit code of a run that failed.
pub const EXIT_FAILURE: i32 = 1;

/// The two halves of backing up.
#[derive(Clone, Copy, Debug, PartialEq, Eq, Structural)]
pub enum BackupStep {
    /// It is being asked whether the backup exists.
    Probing,
    /// The local dictionary is being copied to the backup.
    Copying,
}

/// Where a run stands.
#[derive(Clone, Copy, Debug, PartialEq, Eq, Structural)]
pub enum Stage {
    /// Nothing has been asked for yet.
    Start,
    /// The page is being fetched.
    Fetching,
    /// The body of the page is being turned into entries. This needs no
    /// outside work: a run passes through this stage within the step that
    /// takes the response, and is never left waiting in it.
    Extracting,
    /// The one-time backup is being seen to.
    BackingUp(BackupStep),
    /// The section is being appended to the local dictionary.
    Writing,
    /// The report is being shown.
    Reporting,
    /// The run has merged.
    Done,
    /// The run has failed.
    Failed(Failure),
}

impl Stage {
    /// The place of the stage in the order of a run.
    pub open spec fn rank(self) -> nat {
        match self {
            Stage::Start => 0,
            Stage::Fetching => 1,
            Stage::Extracting => 2,
            Stage::BackingUp(BackupStep::Probing) => 3,
            Stage::BackingUp(BackupStep::Copying) => 4,
            Stage::Writing => 5,
            Stage::Reporting => 6,
            Stage::Done => 7,
            Stage::Failed(_) => 7,
        }
    }

    /// The run is over.
    pub open spec fn terminal(self) -> bool {
        self is Done || self is Failed
    }
}

/// What the driver reports back.
#[derive(Debug)]
pub enum Event {
    /// The request was answered with `status`; `body` is the text of the
    /// answer (of no account unless the status is [`STATUS_OK`]).
    Response { status: u16, body: String },
    /// Whether the backup exists.
    BackupProbed { exists: bool },
    /// The action was performed.
    Completed,
    /// The action could not be performed.
    Failed,
}

/// The mathematical value of an [`Event`].
#[verifier::ext_equal]
pub enum EventView {
    Response { status: u16, body: Seq<char> },
    BackupProbed { exists: bool },
    Completed,
    Failed,
}

impl View for Event {
    type V = EventView;

    open spec fn view(&self) -> EventView {
        match *self {
            Event::Response { status, body } => EventView::Response { status, body: body@ },
            Event::BackupProbed { exists } => EventView::BackupProbed { exists },
            Event::Completed => EventView::Completed,
            Event::Failed => EventView::Failed,
        }
    }
}

/// What the driver is asked to do.
#[derive(Debug)]
pub enum Action {
    /// Request the page at `url` once, and report the response.
    Fetch { url: String },
    /// Report whether the backup exists.
    ProbeBackup,
    /// Copy the local dictionary, byte for byte, to the backup.
    CopyBackup,
    /// Append `bytes` to the end of the local dictionary, and force them to
    /// stable storage.
    Append { bytes: Vec<u8> },
    /// Show `lines`, one per line.
    Report { lines: Vec<String> },
    /// Show `messages` and leave with `code`. The run is over.
    Exit { code: i32, messages: Vec<String> },
}

/// The mathematical value of an [`Action`].
#[verifier::ext_equal]
pub enum ActionView {
    Fetch { url: Seq<char> },
    ProbeBackup,
    CopyBackup,
    Append { bytes: Seq<u8> },
    Report { lines: Seq<Seq<char>> },
    Exit { code: i32, messages: Seq<Seq<char>> },
}

impl View for Action {
    type V = ActionView;

    open spec fn view(&self) -> ActionView {
        match *self {
            Action::Fetch { url } => ActionView::Fetch { url: url@ },
            Action::ProbeBackup => ActionView::ProbeBackup,
            Action::CopyBackup => ActionView::CopyBackup,
            Action::Append { bytes } => ActionView::Append { bytes: bytes@ },
            Action::Report { lines } => ActionView::Report { lines: lines.deep_view() },
            Action::Exit { code, messages } => ActionView::Exit {
                code,
                messages: messages.deep_view(),
            },
        }
    }
}

/// The mathematical value of a [`SyncRun`].
#[verifier::ext_equal]
pub struct RunView {
    /// Where the run stands.
    pub stage: Stage,
    /// The address of the page.
    pub url: Seq<char>,
    /// The rows that were extracted; none before extraction.
    pub rows: Seq<Row>,
}

impl RunView {
    /// A run that has not begun.
    pub open spec fn fresh(url: Seq<char>) -> RunView {
        RunView { stage: Stage::Start, url, rows: Seq::empty() }
    }

    /// The run is at a stage in which a run can wait, and every row that it
    /// holds has both of its fields.
    pub open spec fn wf(self) -> bool {
        &&& !(self.stage is Extracting)
        &&& all_complete(self.rows)
    }

    /// The run at another stage.
    pub open spec fn at(self, stage: Stage) -> RunView {
        RunView { stage, ..self }
    }

    /// The run after [`SyncRun::begin`].
    pub open spec fn begun(self) -> RunView {
        if self.stage is Start {
            self.at(Stage::Fetching)
        } else {
            self
        }
    }

    /// Whether `event` answers what the run is waiting for.
    pub open spec fn accepts(self, event: EventView) -> bool {
        match self.stage {
            Stage::Fetching => event is Response || event is Failed,
            Stage::BackingUp(BackupStep::Probing) => event is BackupProbed,
            Stage::BackingUp(BackupStep::Copying) => event is Completed || event is Failed,
            Stage::Writing => event is Completed || event is Failed,
            Stage::Reporting => event is Completed || event is Failed,
            _ => false,
        }
    }

    /// The run once the body of the page has arrived: extraction decides.
    pub open spec fn extracted(self, body: Seq<char>) -> RunView
        recommends
            self.stage is Extracting,
    {
        match extraction(body) {
            Some(rows) => RunView { stage: Stage::BackingUp(BackupStep::Probing), rows, ..self },
            None => self.at(Stage::Failed(Failure::PatternRejected)),
        }
    }

    /// The run after `event`. An event that does not answer what the run is
    /// waiting for changes nothing.
    pub open spec fn next(self, event: EventView) -> RunView {
        match (self.stage, event) {
            (Stage::Fetching, EventView::Response { status, body }) => if status == STATUS_OK {
                self.at(Stage::Extracting).extracted(body)
            } else {
                self.at(Stage::Failed(Failure::RemoteUnavailable))
            },
            (Stage::Fetching, EventView::Failed) => self.at(
                Stage::Failed(Failure::RemoteUnavailable),
            ),
            (Stage::BackingUp(BackupStep::Probing), EventView::BackupProbed { exists }) => if exists {
                self.at(Stage::Writing)
            } else {
                self.at(Stage::BackingUp(BackupStep::Copying))
            },
            (Stage::BackingUp(BackupStep::Copying), EventView::Completed) => self.at(
                Stage::Writing,
            ),
            (Stage::BackingUp(BackupStep::Copying), EventView::Failed) => self.at(
                Stage::Failed(Failure::BackupFailed),
            ),
            (Stage::Writing, EventView::Completed) => self.at(Stage::Reporting),
            (Stage::Writing, EventView::Failed) => self.at(Stage::Failed(Failure::WriteFailed)),
            (Stage::Reporting, EventView::Completed) => self.at(Stage::Done),
            (Stage::Reporting, EventView::Failed) => self.at(Stage::Done),
            _ => self,
        }
    }

    /// What the driver is to do at this point of the run; before the run has
    /// begun, what it will be asked first.
    pub open spec fn pending(self) -> ActionView
        recommends
            !(self.stage is Extracting),
    {
        match self.stage {
            Stage::Start => ActionView::Fetch { url: self.url },
            Stage::Fetching => ActionView::Fetch { url: self.url },
            Stage::Extracting => arbitrary(),
            Stage::BackingUp(BackupStep::Probing) => ActionView::ProbeBackup,
            Stage::BackingUp(BackupStep::Copying) => ActionView::CopyBackup,
            Stage::Writing => ActionView::Append { bytes: section_bytes_of(self.rows) },
            Stage::Reporting => ActionView::Report { lines: report_text(self.rows) },
            Stage::Done => ActionView::Exit { code: EXIT_SUCCESS, messages: Seq::empty() },
            Stage::Failed(Failure::RemoteUnavailable) => ActionView::Exit {
                code: EXIT_FAILURE,
                messages: hint_text(self.url),
            },
            Stage::Failed(_) => ActionView::Exit { code: EXIT_FAILURE, messages: Seq::empty() },
        }
    }
}

/// The stage from which alone a run can fail with `failure`.
pub open spec fn failing_stage(failure: Failure) -> Stage {
    match failure {
        Failure::RemoteUnavailable => Stage::Fetching,
        Failure::PatternRejected => Stage::Extracting,
        Failure::BackupFailed => Stage::BackingUp(BackupStep::Copying),
        Failure::WriteFailed => Stage::Writing,
    }
}

/// A run never waits in extraction, and keeps only rows that have both of
/// their fields.
pub proof fn law_run_stays_well_formed(run: RunView, event: EventView)
    requires
        run.wf(),
    ensures
        run.begun().wf(),
        run.next(event).wf(),
{
    if let EventView::Response { body, .. } = event {
        lemma_kept_rows_complete(group_captures(ROW_PATTERN@, body, TEXT_GROUP@));
    }
}

/// A run only moves forward: an event that answers what the run is waiting
/// for takes it to a later stage, any other event leaves it as it is. So no
/// stage is entered twice, and a run that is over stays over.
pub proof fn law_run_moves_forward(run: RunView, event: EventView)
    ensures
        run.accepts(event) ==> run.next(event).stage.rank() > run.stage.rank(),
        !run.accepts(event) ==> run.next(event) == run,
        run.stage.terminal() ==> !run.accepts(event),
        run.next(event).url == run.url,
{
}

/// A run fails only while fetching, backing up or writing, each with its own
/// failure; and in the extraction that follows a fetch, if the engine rejects
/// the row pattern.
pub proof fn law_failures_have_their_stage(run: RunView, event: EventView)
    requires
        !(run.stage is Failed),
        run.next(event).stage is Failed,
    ensures
        ({
            let failure = run.next(event).stage->Failed_0;
            if failure is PatternRejected {
                &&& run.stage is Fetching
                &&& event matches EventView::Response { status, body }
                &&& status == STATUS_OK
                &&& extraction(body) is None
            } else {
                run.stage == failing_stage(failure)
            }
        }),
{
}

/// The backup guard: a run asks for the copy only on the word that there is
/// no backup yet, and asks for the append only once the backup is known to
/// exist or has been copied.
pub proof fn law_backup_comes_before_writing(run: RunView, event: EventView)
    requires
        run.next(event) != run,
    ensures
        run.next(event).stage == Stage::BackingUp(BackupStep::Copying) ==> {
            &&& run.stage == Stage::BackingUp(BackupStep::Probing)
            &&& event == (EventView::BackupProbed { exists: false })
        },
        run.next(event).stage is Writing ==> {
            ||| run.stage == Stage::BackingUp(BackupStep::Probing) && event == (
                EventView::BackupProbed { exists: true })
            ||| run.stage == Stage::BackingUp(BackupStep::Copying) && event is Completed
        },
{
}

/// A page that is not answered with status 200 ends the run at once: it
/// fails as unavailable, with the exit code of a failure and the hint for
/// the address that was asked for.
pub proof fn law_unavailable_page_ends_run(run: RunView, event: EventView)
    requires
        run.stage is Fetching,
        event is Failed || (event matches EventView::Response { status, .. } && status
            != STATUS_OK),
    ensures
        run.next(event).stage == Stage::Failed(Failure::RemoteUnavailable),
        run.next(event).pending() == (ActionView::Exit {
            code: EXIT_FAILURE,
            messages: hint_text(run.url),
        }),
{
}

/// One run of the synchronisation.
#[derive(Debug)]
pub struct SyncRun {
    stage: Stage,
    url: String,
    entries: Vec<UserDict>,
}

impl View for SyncRun {
    type V = RunView;

    closed spec fn view(&self) -> RunView {
        RunView { stage: self.stage, url: self.url@, rows: rows_of(self.entries@) }
    }
}

impl SyncRun {
    #[verifier::type_invariant]
    spec fn inv(self) -> bool {
        self@.wf()
    }

    /// A run for the page at `url`, not yet begun.
    pub fn new(url: String) -> (run: Self)
        ensures
            run@ == RunView::fresh(url@),
            run@.wf(),
    {
        let run = SyncRun { stage: Stage::Start, url, entries: Vec::new() };
        assert(run@.rows =~= Seq::empty());
        run
    }

    /// Where the run stands.
    pub fn stage(&self) -> (stage: Stage)
        ensures
            stage == self@.stage,
    {
        self.stage
    }

    /// The address of the page.
    pub fn url(&self) -> (url: &str)
        ensures
            url@ == self@.url,
    {
        self.url.as_str()
    }

    /// The entries that were extracted, in document order.
    pub fn entries(&self) -> (entries: &Vec<UserDict>)
        ensures
            rows_of(entries@) == self@.rows,
            all_complete(self@.rows),
    {
        proof {
            use_type_invariant(self);
        }
        &self.entries
    }

    /// What the driver is to do now.
    pub fn pending(&self) -> (action: Action)
        ensures
            action@ == self@.pending(),
    {
        proof {
            use_type_invariant(self);
        }
        let action = match self.stage {
            Stage::Start | Stage::Fetching => Action::Fetch { url: self.url.clone() },
            Stage::Extracting => unreached(),
            Stage::BackingUp(BackupStep::Probing) => Action::ProbeBackup,
            Stage::BackingUp(BackupStep::Copying) => Action::CopyBackup,
            Stage::Writing => Action::Append { bytes: section_bytes(&self.entries) },
            Stage::Reporting => Action::Report { lines: report_lines(&self.entries) },
            Stage::Done => Action::Exit { code: EXIT_SUCCESS, messages: Vec::new() },
            Stage::Failed(Failure::RemoteUnavailable) => Action::Exit {
                code: EXIT_FAILURE,
                messages: hint_lines(self.url.as_str()),
            },
            Stage::Failed(_) => Action::Exit { code: EXIT_FAILURE, messages: Vec::new() },
        };
        assert(action@ =~~= self@.pending());
        action
    }

    /// Begins the run: the page is asked for.
    pub fn begin(&mut self) -> (action: Action)
        ensures
            final(self)@ == old(self)@.begun(),
            final(self)@.wf(),
            action@ == final(self)@.pending(),
    {
        proof {
            use_type_invariant(&*self);
        }
        if self.stage == Stage::Start {
            self.stage = Stage::Fetching;
        }
        self.pending()
    }

    /// Takes what the driver reports, and answers with what it is to do next.
    pub fn step(&mut self, event: Event) -> (action: Action)
        ensures
            final(self)@ == old(self)@.next(event@),
            final(self)@.wf(),
            action@ == final(self)@.pending(),
    {
        proof {
            use_type_invariant(&*self);
        }
        match self.stage {
            Stage::Fetching => match event {
                Event::Response { status, body } => {
                    if status == STATUS_OK {
                        match extract(body.as_str()) {
                            Ok(entries) => {
                                self.stage = Stage::BackingUp(BackupStep::Probing);
                                self.entries = entries;
                            },
                            Err(failure) => {
                                self.stage = Stage::Failed(failure);
                            },
                        }
                    } else {
                        self.stage = Stage::Failed(Failure::RemoteUnavailable);
                    }
                },
                Event::Failed => {
                    self.stage = Stage::Failed(Failure::RemoteUnavailable);
                },
                _ => {},
            },
            Stage::BackingUp(BackupStep::Probing) => match event {
                Event::BackupProbed { exists } => {
                    if exists {
                        self.stage = Stage::Writing;
                    } else {
                        self.stage = Stage::BackingUp(BackupStep::Copying);
                    }
                },
                _ => {},
            },
            Stage::BackingUp(BackupStep::Copying) => match event {
                Event::Completed => {
                    self.stage = Stage::Writing;
                },
                Event::Failed => {
                    self.stage = Stage::Failed(Failure::BackupFailed);
                },
                _ => {},
            },
            Stage::Writing => match event {
                Event::Completed => {
                    self.stage = Stage::Reporting;
                },
                Event::Failed => {
                    self.stage = Stage::Failed(Failure::WriteFailed);
                },
                _ => {},
            },
            Stage::Reporting => match event {
                Event::Completed | Event::Failed => {
                    self.stage = Stage::Done;
                },
                _ => {},
            },
            _ => {},
        }
        self.pending()
    }
}

} // verus!
