//! Instructions of the core extension to the client.

use vstd::prelude::*;

verus! {

/// How grave a log line is.
#[derive(Clone, Copy, Debug, PartialEq, Eq, Structural)]
pub enum LogSeverity {
    Debug,
    Info,
    Warning,
}

/// How a sync iteration ended.
#[derive(Clone, Copy, Debug, PartialEq, Eq, Structural)]
pub struct CloseSyncStream {
    /// Whether the client reconnects at once and hides that it was disconnected.
    pub hide_disconnect: bool,
}

/// An instruction of the core extension; `S` is the status of the download as it reports it.
#[derive(Debug, PartialEq, Eq)]
pub enum Instruction<S> {
    /// Log a line.
    LogLine { severity: LogSeverity, line: String },
    /// Publish a status of the download.
    UpdateSyncStatus { status: S },
    /// Connect to the service with a request, given as JSON text.
    EstablishSyncStream { request: String },
    /// Fetch credentials ahead of their use, or because those in use have expired.
    FetchCredentials { did_expire: bool },
    /// End the sync iteration.
    CloseSyncStream(CloseSyncStream),
    /// Flush the file system where it is not durable.
    FlushFileSystem,
    /// A sync was completed: earlier errors are void.
    DidCompleteSync,
}

} // verus!
