//! What the caller observed of one external process invocation.
//!
//! The library spawns nothing itself: the caller runs each command it is
//! handed, bounded by the given deadline, and reports the outcome in this
//! form. The classifiers in the resolver, the language runners and the
//! execution engine turn an outcome into the step's typed result.

use vstd::prelude::*;

verus! {

/// The observed outcome of one bounded external command.
#[derive(Debug, Clone, PartialEq, Eq)]
pub enum CommandOutcome {
    /// The process ran to completion within the deadline; `code` is `None`
    /// when it was killed by a signal. Both streams are captured in full.
    Completed { code: Option<i32>, stdout: String, stderr: String },
    /// The program was not found on the search path.
    NotFound,
    /// The process could not be started; carries the OS error text.
    StartFailed(String),
    /// The deadline elapsed before the process completed.
    TimedOut,
}

/// The process completed with exit status zero.
pub open spec fn completed_ok(o: CommandOutcome) -> bool {
    o matches CommandOutcome::Completed { code, .. } && code == Some(0i32)
}

} // verus!
