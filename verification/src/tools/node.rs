//! The interpreted-with-package-manager runner.
//!
//! Source is written beside a generated package manifest, the declared
//! packages are installed with a bounded command, and the system
//! interpreter runs the script.

use vstd::prelude::*;

use crate::errors::SetupError;
use crate::executor::{Orchestrator, Phase};
use crate::runnable::{commands_view, files_view, CommandSpec, FileSpec, LanguageRunnable, SetupPlan};
use crate::text::{path_join, push_word, push_owned, strings_view};
use vstd::string::StringExecFns;

verus! {

/// The bounded wait for the package install, in seconds.
pub const NPM_INSTALL_TIMEOUT_SECS: u64 = 180;

/// A caller's request to run interpreted code against a deployment.
#[derive(Debug, Clone, PartialEq, Eq)]
pub struct Request {
    /// The complete source of the script to run.
    pub code: String,
    /// The deployment whose traffic is mirrored.
    pub deployment: String,
    /// The caller's partial mirroring configuration, as a JSON document.
    pub mirrord_config: String,
}

/// The runner: the script's source.
#[derive(Debug, Clone, PartialEq, Eq)]
pub struct NodeRunner {
    pub code: String,
}

/// The generated package manifest.
pub open spec fn node_package_json() -> Seq<char> {
    "\n{\n  \"name\": \"mirrord-node-code\",\n  \"version\": \"0.1.0\",\n  \"dependencies\": {\n    \"axios\": \"^1.7.0\"\n  }\n}\n"@
}

/// The files the setup step writes.
pub open spec fn node_files_view(nr: NodeRunner) -> Seq<(Seq<char>, Seq<char>)> {
    seq![("package.json"@, node_package_json()), ("index.js"@, nr.code@)]
}

/// The install command the setup step runs.
pub open spec fn node_commands_view(nr: NodeRunner) -> Seq<(Seq<char>, Seq<Seq<char>>, u64)> {
    seq![("npm"@, seq!["install"@], NPM_INSTALL_TIMEOUT_SECS)]
}

impl NodeRunner {
    /// The setup plan: manifest and script, one install, no artifact owed.
    pub fn setup_plan(&self, project_dir: &str) -> (r: SetupPlan)
        ensures
            files_view(r.files@) == node_files_view(*self),
            commands_view(r.commands@) == node_commands_view(*self),
            r.artifact is None,
    {
        let mut files: Vec<FileSpec> = Vec::new();
        files.push(
            FileSpec {
                rel_path: String::from_str("package.json"),
                contents: String::from_str(
                    "\n{\n  \"name\": \"mirrord-node-code\",\n  \"version\": \"0.1.0\",\n  \"dependencies\": {\n    \"axios\": \"^1.7.0\"\n  }\n}\n",
                ),
            },
        );
        files.push(
            FileSpec { rel_path: String::from_str("index.js"), contents: self.code.clone() },
        );
        let mut args: Vec<String> = Vec::new();
        push_word(&mut args, "install");
        let mut commands: Vec<CommandSpec> = Vec::new();
        commands.push(
            CommandSpec {
                program: String::from_str("npm"),
                args,
                timeout_secs: NPM_INSTALL_TIMEOUT_SECS,
            },
        );
        proof {
            assert(files@.drop_last().drop_last() =~= Seq::<FileSpec>::empty());
            assert(files_view(files@.drop_last().drop_last()) == Seq::<
                (Seq<char>, Seq<char>),
            >::empty());
            assert(files@.drop_last().last() == files@[0]);
            assert(files_view(files@.drop_last()) =~= seq![
                ("package.json"@, node_package_json()),
            ]);
            assert(files_view(files@) =~= node_files_view(*self));
            assert(commands@.drop_last() =~= Seq::<CommandSpec>::empty());
            assert(commands_view(commands@.drop_last()) == Seq::<
                (Seq<char>, Seq<Seq<char>>, u64),
            >::empty());
            assert(strings_view(commands@[0].args@) =~= seq!["install"@]);
            assert(commands_view(commands@) =~= node_commands_view(*self));
        }
        SetupPlan { files, commands, artifact: None }
    }

    /// The invocation: the system interpreter on the written script.
    pub fn get_command_args(&self, project_dir: &str) -> (r: Result<Vec<String>, SetupError>)
        ensures
            r matches Ok(v) && strings_view(v@) == seq![
                "node"@,
                project_dir@ + "/"@ + "index.js"@,
            ],
    {
        let mut v: Vec<String> = Vec::new();
        push_word(&mut v, "node");
        push_owned(&mut v, path_join(project_dir, "index.js"));
        Ok(v)
    }
}

/// Prepares the orchestrator for one request, against the default
/// namespace.
pub fn run(request: Request) -> (r: Orchestrator)
    ensures
        r.wf(),
        r.phase == Phase::Created,
        !r.holds_workspace,
        r.runnable == LanguageRunnable::InterpretedWithPackageManager(
            NodeRunner { code: request.code },
        ),
        r.deployment == request.deployment,
        r.namespace@ == "default"@,
        r.mirrord_config == request.mirrord_config,
{
    Orchestrator::new(
        LanguageRunnable::InterpretedWithPackageManager(NodeRunner { code: request.code }),
        request.deployment,
        String::from_str("default"),
        request.mirrord_config,
    )
}

} // verus!
