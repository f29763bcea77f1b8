//! The interpreted-with-virtual-environment runner.
//!
//! Source and a dependency list are written into the workspace, an
//! isolated interpreter environment is created there, the dependencies
//! are installed into it, and the environment's own interpreter — not the
//! system one — runs the script.

use vstd::prelude::*;

use crate::errors::SetupError;
use crate::executor::{Orchestrator, Phase};
use crate::runnable::{commands_view, files_view, CommandSpec, FileSpec, LanguageRunnable, SetupPlan};
use crate::text::{path_join, push_word, push_owned, strings_view};
use vstd::string::StringExecFns;

verus! {

/// The bounded wait for each environment step, in seconds.
pub const PYTHON_INSTALL_TIMEOUT_SECS: u64 = 180;

/// A caller's request to run interpreted code against a deployment.
#[derive(Debug, Clone, PartialEq, Eq)]
pub struct Request {
    /// The complete source of the script to run.
    pub code: String,
    /// The deployment whose traffic is mirrored.
    pub deployment: String,
    /// The caller's partial mirroring configuration, as a JSON document.
    pub mirrord_config: String,
}

/// The runner: the script's source.
#[derive(Debug, Clone, PartialEq, Eq)]
pub struct PythonRunner {
    pub code: String,
}

/// The declared dependencies.
pub open spec fn python_requirements() -> Seq<char> {
    "requests\n"@
}

/// The files the setup step writes.
pub open spec fn python_files_view(pr: PythonRunner) -> Seq<(Seq<char>, Seq<char>)> {
    seq![("main.py"@, pr.code@), ("requirements.txt"@, python_requirements())]
}

/// The environment commands the setup step runs: create the environment,
/// then install the declared dependencies into it.
pub open spec fn python_commands_view(pr: PythonRunner, dir: Seq<char>) -> Seq<
    (Seq<char>, Seq<Seq<char>>, u64),
> {
    seq![
        (
            "python3"@,
            seq!["-m"@, "venv"@, dir + "/"@ + ".venv"@],
            PYTHON_INSTALL_TIMEOUT_SECS,
        ),
        (
            dir + "/"@ + ".venv/bin/pip"@,
            seq!["install"@, "-r"@, dir + "/"@ + "requirements.txt"@],
            PYTHON_INSTALL_TIMEOUT_SECS,
        ),
    ]
}

impl PythonRunner {
    /// The setup plan: script and dependency list, two bounded commands,
    /// no artifact owed.
    pub fn setup_plan(&self, project_dir: &str) -> (r: SetupPlan)
        ensures
            files_view(r.files@) == python_files_view(*self),
            commands_view(r.commands@) == python_commands_view(*self, project_dir@),
            r.artifact is None,
    {
        let mut files: Vec<FileSpec> = Vec::new();
        files.push(
            FileSpec { rel_path: String::from_str("main.py"), contents: self.code.clone() },
        );
        files.push(
            FileSpec {
                rel_path: String::from_str("requirements.txt"),
                contents: String::from_str("requests\n"),
            },
        );
        let mut venv_args: Vec<String> = Vec::new();
        push_word(&mut venv_args, "-m");
        push_word(&mut venv_args, "venv");
        push_owned(&mut venv_args, path_join(project_dir, ".venv"));
        let mut install_args: Vec<String> = Vec::new();
        push_word(&mut install_args, "install");
        push_word(&mut install_args, "-r");
        push_owned(&mut install_args, path_join(project_dir, "requirements.txt"));
        let mut commands: Vec<CommandSpec> = Vec::new();
        commands.push(
            CommandSpec {
                program: String::from_str("python3"),
                args: venv_args,
                timeout_secs: PYTHON_INSTALL_TIMEOUT_SECS,
            },
        );
        commands.push(
            CommandSpec {
                program: path_join(project_dir, ".venv/bin/pip"),
                args: install_args,
                timeout_secs: PYTHON_INSTALL_TIMEOUT_SECS,
            },
        );
        proof {
            assert(files@.drop_last().drop_last() =~= Seq::<FileSpec>::empty());
            assert(files_view(files@.drop_last().drop_last()) == Seq::<
                (Seq<char>, Seq<char>),
            >::empty());
            assert(files@.drop_last().last() == files@[0]);
            assert(files_view(files@.drop_last()) =~= seq![("main.py"@, self.code@)]);
            assert(files_view(files@) =~= python_files_view(*self));
            assert(commands@.drop_last().drop_last() =~= Seq::<CommandSpec>::empty());
            assert(commands_view(commands@.drop_last().drop_last()) == Seq::<
                (Seq<char>, Seq<Seq<char>>, u64),
            >::empty());
            assert(commands@.drop_last().last() == commands@[0]);
            assert(strings_view(commands@[0].args@) =~= seq![
                "-m"@,
                "venv"@,
                project_dir@ + "/"@ + ".venv"@,
            ]);
            assert(strings_view(commands@[1].args@) =~= seq![
                "install"@,
                "-r"@,
                project_dir@ + "/"@ + "requirements.txt"@,
            ]);
            assert(commands_view(commands@.drop_last()) =~= seq![
                python_commands_view(*self, project_dir@)[0],
            ]);
            assert(commands_view(commands@) =~= python_commands_view(*self, project_dir@));
        }
        SetupPlan { files, commands, artifact: None }
    }

    /// The invocation: the environment's interpreter on the written script.
    pub fn get_command_args(&self, project_dir: &str) -> (r: Result<Vec<String>, SetupError>)
        ensures
            r matches Ok(v) && strings_view(v@) == seq![
                project_dir@ + "/"@ + ".venv/bin/python"@,
                project_dir@ + "/"@ + "main.py"@,
            ],
    {
        let mut v: Vec<String> = Vec::new();
        push_owned(&mut v, path_join(project_dir, ".venv/bin/python"));
        push_owned(&mut v, path_join(project_dir, "main.py"));
        Ok(v)
    }
}

/// Prepares the orchestrator for one request, against the default
/// namespace.
pub fn run(request: Request) -> (r: Orchestrator)
    ensures
        r.wf(),
        r.phase == Phase::Created,
        !r.holds_workspace,
        r.runnable == LanguageRunnable::InterpretedWithVirtualEnv(
            PythonRunner { code: request.code },
        ),
        r.deployment == request.deployment,
        r.namespace@ == "default"@,
        r.mirrord_config == request.mirrord_config,
{
    Orchestrator::new(
        LanguageRunnable::InterpretedWithVirtualEnv(PythonRunner { code: request.code }),
        request.deployment,
        String::from_str("default"),
        request.mirrord_config,
    )
}

} // verus!
