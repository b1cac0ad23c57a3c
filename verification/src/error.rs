//! Error kinds surfaced by the sequencing layer.

use vstd::prelude::*;

verus! {

/// Errors raised while staging or committing against the sequencing store.
///
/// A conflict is recoverable only by the caller retrying with a fresh
/// session built from a fresh reader; this layer never retries on its own.
#[derive(Debug, PartialEq, Eq)]
pub enum WorkspaceError {
    /// The persisted chain head diverged from the head this session was
    /// opened against, so committing its staged records would fork the log.
    SourceChainHeadMoved,
}

/// Result of operations against the sequencing store.
pub type WorkspaceResult<T> = Result<T, WorkspaceError>;

} // verus!
