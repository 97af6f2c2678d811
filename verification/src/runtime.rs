//! The runtime capability: the interface through which a command requests
//! lifecycle operations on a managed entity.

use vstd::prelude::*;

verus! {

/// One recorded invocation of a runtime's restart operation: the identifier
/// it was asked to restart and whether the operation succeeded.
///
/// A runtime's ghost history is a sequence of these, so that a command's
/// contract can state exactly which calls one execution makes and in what
/// order.
pub struct RestartCall {
    pub id: Seq<char>,
    pub succeeded: bool,
}

impl RestartCall {
    /// The record of one restart invocation for `id` with outcome `succeeded`.
    pub open spec fn of(id: Seq<char>, succeeded: bool) -> RestartCall {
        RestartCall { id, succeeded }
    }
}

/// A module runtime: a capability that can restart a managed entity by
/// identifier.
///
/// The operation is fallible; an implementation decides on which identifiers
/// it succeeds. Every invocation, successful or not, is appended to the
/// runtime's ghost history of restart calls, so that callers can be held to
/// how often and with which identifiers they invoke the runtime.
pub trait ModuleRuntime: Sized {
    /// The runtime's own error type, surfaced unchanged inside the unified
    /// error taxonomy.
    type Error;

    /// The history of restart invocations this runtime has received, in
    /// order.
    ///
    /// The provided body is a placeholder for implementations outside the
    /// verifier's view (real engines, test stubs), which may omit this ghost
    /// item; a verified implementation supplies its own.
    open spec fn restarts(&self) -> Seq<RestartCall> {
        Seq::empty()
    }

    /// Request a restart of the entity named `id`.
    ///
    /// Exactly one call is appended to the history, carrying `id` verbatim
    /// and the outcome; nothing else about the runtime's history changes.
    fn restart(&mut self, id: &str) -> (r: Result<(), Self::Error>)
        ensures
            final(self).restarts() == old(self).restarts().push(RestartCall::of(id@, r is Ok)),
    ;
}

} // verus!
