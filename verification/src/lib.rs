//! A command-execution abstraction for issuing lifecycle operations against a
//! pluggable module runtime and reporting the outcome to an output sink.
//!
//! The core piece is the [`Restart`] command: a named, single-shot unit of
//! work bound to a target identifier, a runtime capability and an output
//! sink. Its contract pins down the full observable behaviour of one
//! execution: the runtime's restart operation is invoked exactly once, the
//! identifier (followed by exactly one line terminator) is written to the
//! sink if and only if the whole operation succeeds, and every failure is
//! normalized into one error taxonomy.

pub mod command;
pub mod error;
pub mod restart;
pub mod runtime;
pub mod sink;

pub use crate::command::Command;
pub use crate::error::CommandError;
pub use crate::restart::Restart;
pub use crate::runtime::ModuleRuntime;
pub use crate::runtime::RestartCall;
pub use crate::sink::LineSink;
