//! The error taxonomy of the request pipeline.
//!
//! Every error is terminal for its request: the orchestrator surfaces it
//! to the caller with enough detail (captured tool stderr where it
//! applies) to diagnose the failure without re-running.

use vstd::prelude::*;

verus! {

/// Failure to create the request's private scratch directory.
#[derive(Debug, Clone, PartialEq, Eq)]
pub enum WorkspaceError {
    /// The filesystem denied creation; carries the OS error text.
    CreateFailed(String),
}

/// Failure while materializing sources or running a toolchain step.
#[derive(Debug, Clone, PartialEq, Eq)]
pub enum SetupError {
    /// A source or manifest file could not be written.
    WriteFailed(String),
    /// The toolchain binary was not found on the PATH; carries its name.
    ToolNotFound(String),
    /// The toolchain process could not be started; carries the OS error text.
    ToolStartFailed(String),
    /// The toolchain ran and failed; carries its stderr verbatim.
    ToolFailed(String),
    /// A toolchain step exceeded its own bounded deadline.
    Timeout,
    /// A build reported success but left no artifact at the expected path.
    MissingArtifact(String),
    /// A raw command line could not be tokenized; carries the reason.
    InvalidCommand(String),
}

/// Failure to map a deployment name to a running instance.
#[derive(Debug, Clone, PartialEq, Eq)]
pub enum ResolutionError {
    /// The query succeeded but matched no running instance.
    NotFound,
    /// The query tool exited non-zero or could not run; carries its stderr.
    QueryFailed(String),
    /// The query exceeded its bounded wait.
    Timeout,
}

/// Failure to produce the effective mirroring configuration.
#[derive(Debug, Clone, PartialEq, Eq)]
pub enum ConfigError {
    /// The caller's partial configuration is not well-formed JSON.
    InvalidJson,
    /// The caller's partial configuration is JSON, but not an object.
    NotAnObject,
    /// The merged document could not be serialized.
    SerializeFailed,
}

/// Failure of the mirrored execution itself.
#[derive(Debug, Clone, PartialEq, Eq)]
pub enum ExecutionError {
    /// The mirroring tool binary was not found on the PATH.
    ToolNotFound,
    /// The mirroring tool could not be spawned; carries the OS error text.
    SpawnFailed(String),
    /// The child completed with a non-zero exit status; `code` is `None`
    /// when the process was killed by a signal. Carries stderr verbatim.
    NonZeroExit { code: Option<i32>, stderr: String },
    /// The deadline elapsed before the child completed.
    Timeout,
}

/// The union of the step errors, as surfaced to the caller.
#[derive(Debug, Clone, PartialEq, Eq)]
pub enum RunError {
    Workspace(WorkspaceError),
    Setup(SetupError),
    Resolution(ResolutionError),
    Config(ConfigError),
    Execution(ExecutionError),
}

} // verus!
