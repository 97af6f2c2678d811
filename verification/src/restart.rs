//! The restart command: execute a named restart operation against a
//! runtime-managed entity and report success by writing the entity's
//! identifier, terminated by a newline, to the bound output sink.

use vstd::prelude::*;

use crate::command::Command;
use crate::error::CommandError;
use crate::runtime::ModuleRuntime;
use crate::runtime::RestartCall;
use crate::sink::LineSink;

verus! {

/// A single-shot restart command, bound at construction to the identifier of
/// the target entity, the runtime capability that performs the operation and
/// the output sink that receives the confirmation line.
///
/// A `Restart` holds no state that evolves across executions beyond the
/// histories of the two capabilities it carries; each call of `execute`
/// starts a fresh run of the same per-call behaviour.
///
/// The command owns its sink, so a write holds exclusive access to it for
/// the duration of that one write and nothing is held across the runtime
/// call that precedes it.
pub struct Restart<M, W> {
    id: String,
    runtime: M,
    output: W,
}

impl<M: ModuleRuntime, W: LineSink> Restart<M, W> {
    /// The identifier of the target entity, immutable after construction.
    pub closed spec fn id_view(&self) -> Seq<char> {
        self.id@
    }

    /// The restart history of the bound runtime.
    pub closed spec fn restarts(&self) -> Seq<RestartCall> {
        self.runtime.restarts()
    }

    /// Everything written to the bound output sink so far.
    pub closed spec fn output_contents(&self) -> Seq<char> {
        self.output.contents()
    }

    /// Construct a restart command for the entity named `id`.
    ///
    /// No validation is performed and no side effect occurs: the histories of
    /// the two capabilities are taken over unchanged. A meaningful operation
    /// needs a non-empty identifier, but enforcing that is the caller's
    /// responsibility; the contract of `execute` holds for every identifier.
    pub fn new(id: String, runtime: M, output: W) -> (r: Self)
        ensures
            r.id_view() == id@,
            r.restarts() == runtime.restarts(),
            r.output_contents() == output.contents(),
    {
        Restart { id, runtime, output }
    }
}

/// The line a successful execution hands to the output sink for the entity
/// named `id`: the identifier followed by exactly one line terminator.
pub open spec fn reported_line(id: Seq<char>) -> Seq<char> {
    id + seq!['\n']
}

/// Identifier fidelity: for any identifier, the reported line is the
/// identifier itself, character for character, followed by exactly one line
/// terminator — nothing is altered, dropped or appended beyond it.
pub proof fn lemma_reported_line_fidelity(id: Seq<char>)
    ensures
        reported_line(id).len() == id.len() + 1,
        forall|i: int| 0 <= i < id.len() ==> reported_line(id)[i] == id[i],
        reported_line(id)[id.len() as int] == '\n',
{
}

impl<M: ModuleRuntime, W: LineSink> Command for Restart<M, W> {
    type Failure = CommandError<M::Error, W::Error>;

    /// Run the restart operation once and, on success, report the target's
    /// identifier on the output sink.
    ///
    /// The contract pins down every observable outcome of one execution:
    /// - the runtime's restart operation is invoked exactly once, with the
    ///   bound identifier verbatim, and never retried; its recorded outcome
    ///   is success exactly when the execution does not resolve with a
    ///   runtime failure;
    /// - on success, the sink receives the identifier followed by exactly
    ///   one line terminator, appended after the restart call; on any
    ///   failure the sink is left untouched, so the sink only ever changes
    ///   once the restart operation has resolved successfully;
    /// - a runtime failure carries the runtime's error unchanged and means
    ///   the write was never attempted; an output failure carries the sink's
    ///   error unchanged and means the restart had succeeded.
    fn execute(&mut self) -> (r: Result<(), CommandError<M::Error, W::Error>>)
        ensures
            final(self).id_view() == old(self).id_view(),
            final(self).restarts() == old(self).restarts().push(
                RestartCall::of(
                    old(self).id_view(),
                    !(r matches Err(CommandError::RuntimeOperationFailed(_))),
                ),
            ),
            r is Ok ==> final(self).output_contents() == old(self).output_contents()
                + reported_line(old(self).id_view()),
            r is Err ==> final(self).output_contents() == old(self).output_contents(),
            final(self).output_contents() != old(self).output_contents() ==> r is Ok
                && final(self).restarts().last().succeeded,
            r matches Err(e)
                ==> (e.is_runtime_failure() <==> !final(self).restarts().last().succeeded),
            r matches Err(e)
                ==> (e.is_output_failure() <==> final(self).restarts().last().succeeded),
    {
        let restarted = self.runtime.restart(self.id.as_str());
        match restarted {
            Ok(()) => match self.output.write_line(self.id.as_str()) {
                Ok(()) => Ok(()),
                Err(e) => Err(CommandError::OutputWriteFailed(e)),
            },
            Err(e) => Err(CommandError::RuntimeOperationFailed(e)),
        }
    }
}

} // verus!
