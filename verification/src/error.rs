//! The failures that the debugger reports to its caller.

use vstd::prelude::*;

verus! {

/// Every way an operation of the debugger can fail. Each variant carries the
/// text that the failing collaborator or check supplied.
#[derive(Debug, Clone, PartialEq, Eq)]
pub enum DebuggerError {
    /// The module bytes are malformed, or the host could not initialise them.
    Load(String),
    /// The initial storage is not a JSON object the host can represent.
    StorageParse(String),
    /// The call arguments are not a JSON array.
    ArgsParse(String),
    /// The host failed while a call was running.
    Execution(String),
    /// The host stopped the call because its budget ran out.
    BudgetExceeded(String),
    /// The controller answered a pause with `Abort`.
    AbortedByUser,
    /// A storage filter pattern could not be compiled.
    InvalidPattern(String),
    /// An authorization tree could not be serialised.
    Serialization(String),
    /// A caller broke a stated precondition.
    PreconditionViolation(String),
}

} // verus!
