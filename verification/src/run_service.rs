//! The compiled-code service.
//!
//! One request carries source code, a deployment name and a partial
//! mirroring configuration; the service turns it into an orchestrator
//! that the caller drives to completion. The deployment is always
//! resolved in the fixed default namespace.

use vstd::prelude::*;

use crate::executor::{Orchestrator, Phase};
use crate::runnable::LanguageRunnable;
use crate::tools::rust::{BuildMode, RustRunner};
use vstd::string::StringExecFns;

verus! {

/// A request to compile and run code against a deployment's live traffic.
#[derive(Debug, Clone, PartialEq, Eq)]
pub struct MirrordRequest {
    /// The complete source of the program to compile and run.
    pub code: String,
    /// The deployment whose traffic is mirrored.
    pub deployment: String,
    /// The caller's partial mirroring configuration, as a JSON document.
    pub mirrord_config: String,
}

/// The service front: accepts requests and prepares their orchestrators.
#[derive(Debug, Clone, PartialEq, Eq, Structural)]
pub struct MirrordService;

impl MirrordService {
    pub fn new() -> (r: Self)
        ensures
            r == (MirrordService {  }),
    {
        MirrordService {  }
    }

    /// Prepares the orchestrator for one compiled-code request, in the
    /// given build mode, against the default namespace.
    pub fn run_service(&self, request: MirrordRequest, mode: BuildMode) -> (r: Orchestrator)
        ensures
            r.wf(),
            r.phase == Phase::Created,
            !r.holds_workspace,
            r.runnable == LanguageRunnable::CompiledNative(
                RustRunner { code: request.code, mode },
            ),
            r.deployment == request.deployment,
            r.namespace@ == "default"@,
            r.mirrord_config == request.mirrord_config,
    {
        Orchestrator::new(
            LanguageRunnable::CompiledNative(RustRunner { code: request.code, mode }),
            request.deployment,
            String::from_str("default"),
            request.mirrord_config,
        )
    }
}

} // verus!
