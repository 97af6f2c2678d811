//! The uniform command contract exposed to the dispatch layer.

use vstd::prelude::*;

verus! {

/// A named unit of work with a uniform `execute` entry point, polymorphic
/// over its backing runtime and output sink.
///
/// Every command exposes exactly one operation, so that a dispatcher can
/// invoke any command uniformly without knowing its concrete identity or
/// parameters. An execution resolves exactly once, with either success or a
/// single value of the command's unified error type; concrete commands
/// strengthen this contract with what their execution observably does.
pub trait Command: Sized {
    /// The command's unified error type.
    type Failure;

    /// Run the command once to completion.
    fn execute(&mut self) -> Result<(), Self::Failure>;
}

} // verus!
