//! Messages exchanged with a file-system watching actor.
//!
//! Watching itself is an unverified collaborator; these are the typed values
//! that flow between it and the rest of the system, with paths carried as
//! plain strings.

use vstd::prelude::*;

verus! {

/// What a file-system watcher is told to watch.
#[derive(Clone, Debug, Eq, PartialEq)]
pub struct WatcherConfig {
    /// The directory whose entries are watched.
    pub directory: String,
}

/// A change observed under the watched directory.
#[derive(Clone, Debug, Eq, PartialEq)]
pub enum FileEvent {
    /// A file disappeared.
    FileDeleted(String),
    /// A file appeared.
    FileCreated(String),
    /// A directory disappeared.
    DirectoryDeleted(String),
    /// A directory appeared.
    DirectoryCreated(String),
}

/// Requests a client may address to the watcher.
///
/// No meaningful request is defined yet; the one variant stands in until
/// there is one.
#[derive(Clone, Debug, Eq, PartialEq)]
pub enum FileRequest {
    /// A request with no effect.
    NoRequest,
}

} // verus!
