//! The plain enumerations the runtime's C interface speaks in.

use vstd::prelude::*;

verus! {

/// The runtime type tag of a value held in a slot.
///
/// `Unknown` covers every runtime value the host interface has no typed
/// accessor for (classes, closures, fibers, maps and the like).
#[derive(Copy, Clone, Debug, PartialEq, Eq, Structural)]
pub enum WrenType {
    Bool,
    Num,
    Foreign,
    List,
    Null,
    String,
    Unknown,
}

/// The three kinds of report the error callback receives.
#[derive(Copy, Clone, Debug, PartialEq, Eq, Structural)]
pub enum WrenErrorType {
    /// Source failed to parse or resolve; reported with module and line.
    Compile,
    /// An uncaught failure during execution; reported with the message alone.
    Runtime,
    /// One frame of the stack trace that follows a runtime error.
    StackTrace,
}

/// The three-way outcome of running source or calling a handle.
#[derive(Copy, Clone, Debug, PartialEq, Eq, Structural)]
pub enum WrenInterpretResult {
    Success,
    CompileError,
    RuntimeError,
}

} // verus!
