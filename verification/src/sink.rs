//! The output sink: the destination to which a command reports successful
//! completion, one line of text per success.

use vstd::prelude::*;

verus! {

/// A sink of sequential line-oriented text.
///
/// The sink's ghost contents are the sequence of characters handed to it so
/// far. A write is all-or-nothing at the contract level: on success the line
/// and exactly one line terminator are appended, on failure the contents are
/// unchanged.
pub trait LineSink: Sized {
    /// The sink's own I/O-style error type, surfaced unchanged inside the
    /// unified error taxonomy.
    type Error;

    /// Everything written to this sink so far.
    ///
    /// The provided body is a placeholder for implementations outside the
    /// verifier's view (real streams, test stubs), which may omit this ghost
    /// item; a verified implementation supplies its own.
    open spec fn contents(&self) -> Seq<char> {
        Seq::empty()
    }

    /// Write `line` followed by exactly one line terminator.
    fn write_line(&mut self, line: &str) -> (r: Result<(), Self::Error>)
        ensures
            r is Ok ==> final(self).contents() == old(self).contents() + line@ + seq!['\n'],
            r is Err ==> final(self).contents() == old(self).contents(),
    ;
}

} // verus!
