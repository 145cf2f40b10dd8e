//! Rime user-dictionary synchronisation: the rows of a remotely published
//! flypy dictionary are recovered from the markup of its code-hosting page and
//! appended, after a one-time backup, to the local user dictionary.
//!
//! The library holds every rule of that pipeline and proves it; reading the
//! network and the file system is left to the caller, which performs the
//! [`pipeline::Action`]s that a [`pipeline::SyncRun`] asks for.
//!
//! - [`entry`]: the dictionary entry.
//! - [`fields`]: how the text of one line is split into an entry.
//! - [`extract`]: how the lines are found in the page, with the `regex` crate.
//! - [`section`]: what is appended to the local dictionary.
//! - [`report`]: what the user is told.
//! - [`pipeline`]: the run as a state machine.
//! - [`model`]: what a run does to the files, and the guarantees of the merge.
//! - [`paths`], [`failure`]: the names of the files, and the ways to fail.

pub mod entry;
pub mod extract;
pub mod failure;
pub mod fields;
pub mod model;
pub mod paths;
pub mod pipeline;
pub mod report;
pub mod section;
