//! The unified error taxonomy into which all failure sources of a command
//! execution are converted before being surfaced to the caller.

use vstd::prelude::*;

verus! {

/// The single error representation a command resolves with on failure.
///
/// Both kinds carry the underlying error value unchanged, so that the
/// dispatching layer can render it; this component performs no recovery,
/// no retry and no suppression.
#[derive(Debug)]
pub enum CommandError<R, W> {
    /// The runtime's restart operation itself failed (entity unknown,
    /// operation rejected, transport or daemon failure). Not retried.
    RuntimeOperationFailed(R),
    /// The runtime operation succeeded, but writing the confirmation line
    /// to the output sink failed.
    OutputWriteFailed(W),
}

impl<R, W> CommandError<R, W> {
    /// True exactly when this failure came from the runtime operation.
    pub open spec fn is_runtime_failure(&self) -> bool {
        self is RuntimeOperationFailed
    }

    /// True exactly when this failure came from the output sink.
    pub open spec fn is_output_failure(&self) -> bool {
        self is OutputWriteFailed
    }
}

} // verus!
