//! The raw-command service.
//!
//! One request carries a complete command line, a deployment name and a
//! partial mirroring configuration; the command line is tokenized with
//! shell-word semantics when the execution is prepared, and the tokens
//! are handed to the mirroring tool as given.

use vstd::prelude::*;

use crate::executor::{Orchestrator, Phase};
use crate::runnable::{LanguageRunnable, RawRunner};
use vstd::string::StringExecFns;

verus! {

/// A request to run a command line against a deployment's live traffic.
#[derive(Debug, Clone, PartialEq, Eq)]
pub struct Request {
    /// The complete command line to run, absolute paths and all flags.
    pub cmd_str: String,
    /// The deployment whose traffic is mirrored.
    pub deployment: String,
    /// The caller's partial mirroring configuration, as a JSON document.
    pub mirrord_config: String,
}

/// The service front: accepts requests and prepares their orchestrators.
#[derive(Debug, Clone, PartialEq, Eq, Structural)]
pub struct MirrordService;

impl MirrordService {
    pub fn new() -> (r: Self)
        ensures
            r == (MirrordService {  }),
    {
        MirrordService {  }
    }

    /// Prepares the orchestrator for one raw-command request, against the
    /// default namespace.
    pub fn run(&self, request: Request) -> (r: Orchestrator)
        ensures
            r.wf(),
            r.phase == Phase::Created,
            !r.holds_workspace,
            r.runnable == LanguageRunnable::RawCommand(
                RawRunner { command_line: request.cmd_str },
            ),
            r.deployment == request.deployment,
            r.namespace@ == "default"@,
            r.mirrord_config == request.mirrord_config,
    {
        Orchestrator::new(
            LanguageRunnable::RawCommand(RawRunner { command_line: request.cmd_str }),
            request.deployment,
            String::from_str("default"),
            request.mirrord_config,
        )
    }
}

} // verus!
