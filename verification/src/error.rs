//! The errors the facade reports.
use vstd::prelude::*;

verus! {

/// Raised only by default-pool construction, when the runtime cannot allocate
/// the requested worker threads. It carries the underlying platform error.
#[derive(Debug)]
pub struct PoolCreationError {
    /// The platform error the runtime reported.
    pub source: std::io::Error,
}

/// Raised when a unit of work cannot be handed to the pool (the pool has been
/// shut down). It carries the pool's own spawn error.
#[derive(Debug)]
pub struct SubmissionError {
    /// The error the pool reported for the rejected submission.
    pub source: futures::task::SpawnError,
}

} // verus!
