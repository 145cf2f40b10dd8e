//! Why a run ends without having merged.

use vstd::prelude::*;

verus! {

/// The failures of a run. Each one ends the run; none is retried.
#[derive(Clone, Copy, Debug, PartialEq, Eq, Structural)]
pub enum Failure {
    /// The page could not be fetched, or came with a status other than 200.
    RemoteUnavailable,
    /// The regular-expression engine did not accept the row pattern.
    PatternRejected,
    /// The local dictionary could not be copied to its backup.
    BackupFailed,
    /// The section could not be appended to the local dictionary.
    WriteFailed,
}

} // verus!
