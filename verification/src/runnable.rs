//! The language runnables.
//!
//! Each supported language variant describes, for a given workspace, which
//! files to materialize, which bounded toolchain commands to run, which
//! artifact must exist afterwards, and how to invoke the prepared code.
//! The descriptions are plain data; the caller performs the writes and
//! spawns the commands, and the orchestrator classifies their outcomes.

use vstd::prelude::*;

use crate::errors::SetupError;
use crate::shellwords::{spec_split, split};
use crate::text::strings_view;
use crate::tools::node::NodeRunner;
use crate::tools::python::PythonRunner;
use crate::tools::rust::RustRunner;

verus! {

/// One file to write into the workspace, by path relative to it.
#[derive(Debug, Clone, PartialEq, Eq)]
pub struct FileSpec {
    pub rel_path: String,
    pub contents: String,
}

/// One bounded toolchain command, run with the workspace as its working
/// directory.
#[derive(Debug, Clone, PartialEq, Eq)]
pub struct CommandSpec {
    pub program: String,
    pub args: Vec<String>,
    pub timeout_secs: u64,
}

/// Everything a variant's setup step asks of the caller.
#[derive(Debug, Clone, PartialEq, Eq)]
pub struct SetupPlan {
    /// Files to write, in order.
    pub files: Vec<FileSpec>,
    /// Commands to run after the files are written, in order; each must
    /// exit zero for setup to proceed.
    pub commands: Vec<CommandSpec>,
    /// A path that must exist once the commands succeeded.
    pub artifact: Option<String>,
}

/// The view of a file list: (relative path, contents) pairs.
pub open spec fn files_view(v: Seq<FileSpec>) -> Seq<(Seq<char>, Seq<char>)>
    decreases v.len(),
{
    if v.len() == 0 {
        Seq::empty()
    } else {
        files_view(v.drop_last()).push((v.last().rel_path@, v.last().contents@))
    }
}

/// The view of a command list: (program, arguments, deadline) triples.
pub open spec fn commands_view(v: Seq<CommandSpec>) -> Seq<(Seq<char>, Seq<Seq<char>>, u64)>
    decreases v.len(),
{
    if v.len() == 0 {
        Seq::empty()
    } else {
        commands_view(v.drop_last()).push(
            (v.last().program@, strings_view(v.last().args@), v.last().timeout_secs),
        )
    }
}

pub proof fn lemma_files_view_len(v: Seq<FileSpec>)
    ensures
        files_view(v).len() == v.len(),
    decreases v.len(),
{
    if v.len() > 0 {
        lemma_files_view_len(v.drop_last());
    }
}

pub proof fn lemma_commands_view_index(v: Seq<CommandSpec>)
    ensures
        commands_view(v).len() == v.len(),
        forall|k: int| 0 <= k < v.len() ==> commands_view(v)[k] == (
            v[k].program@,
            strings_view(v[k].args@),
            v[k].timeout_secs,
        ),
    decreases v.len(),
{
    if v.len() > 0 {
        lemma_commands_view_index(v.drop_last());
    }
}

/// The view of an optional path.
pub open spec fn opt_path_view(o: Option<String>) -> Option<Seq<char>> {
    match o {
        Some(p) => Some(p@),
        None => None,
    }
}

/// One language variant, with everything its steps need.
#[derive(Debug, Clone, PartialEq, Eq)]
pub enum LanguageRunnable {
    /// Source is compiled to a native binary, which is then invoked.
    CompiledNative(RustRunner),
    /// Source is interpreted after a package-manager install step.
    InterpretedWithPackageManager(NodeRunner),
    /// Source is interpreted from inside a dedicated interpreter
    /// environment created in the workspace.
    InterpretedWithVirtualEnv(PythonRunner),
    /// A user-supplied command line, tokenized and invoked as given.
    RawCommand(RawRunner),
}

/// A raw command line; no setup step, the line itself is the invocation.
#[derive(Debug, Clone, PartialEq, Eq)]
pub struct RawRunner {
    pub command_line: String,
}

/// The files a variant's setup step writes.
pub open spec fn plan_files_view(r: LanguageRunnable) -> Seq<(Seq<char>, Seq<char>)> {
    match r {
        LanguageRunnable::CompiledNative(rr) => crate::tools::rust::rust_files_view(rr),
        LanguageRunnable::InterpretedWithPackageManager(nr) => crate::tools::node::node_files_view(
            nr,
        ),
        LanguageRunnable::InterpretedWithVirtualEnv(pr) => crate::tools::python::python_files_view(
            pr,
        ),
        LanguageRunnable::RawCommand(_) => Seq::empty(),
    }
}

/// The commands a variant's setup step runs, for a given workspace.
pub open spec fn plan_commands_view(r: LanguageRunnable, dir: Seq<char>) -> Seq<
    (Seq<char>, Seq<Seq<char>>, u64),
> {
    match r {
        LanguageRunnable::CompiledNative(rr) => crate::tools::rust::rust_commands_view(rr),
        LanguageRunnable::InterpretedWithPackageManager(nr) => crate::tools::node::node_commands_view(
            nr,
        ),
        LanguageRunnable::InterpretedWithVirtualEnv(pr) => crate::tools::python::python_commands_view(
            pr,
            dir,
        ),
        LanguageRunnable::RawCommand(_) => Seq::empty(),
    }
}

/// The artifact a variant's setup step must leave behind, if any.
pub open spec fn plan_artifact_view(r: LanguageRunnable, dir: Seq<char>) -> Option<Seq<char>> {
    match r {
        LanguageRunnable::CompiledNative(rr) => Some(
            crate::tools::rust::rust_binary_path_view(rr, dir),
        ),
        _ => None,
    }
}

/// The invocation a prepared variant hands to the mirroring tool; `None`
/// when a raw command line cannot be tokenized.
pub open spec fn invocation_view(r: LanguageRunnable, dir: Seq<char>) -> Option<Seq<Seq<char>>> {
    match r {
        LanguageRunnable::CompiledNative(rr) => Some(
            seq![crate::tools::rust::rust_binary_path_view(rr, dir)],
        ),
        LanguageRunnable::InterpretedWithPackageManager(_) => Some(
            seq!["node"@, dir + "/"@ + "index.js"@],
        ),
        LanguageRunnable::InterpretedWithVirtualEnv(_) => Some(
            seq![dir + "/"@ + ".venv/bin/python"@, dir + "/"@ + "main.py"@],
        ),
        LanguageRunnable::RawCommand(raw) => spec_split(raw.command_line@),
    }
}

impl LanguageRunnable {
    /// The variant's setup plan for a given workspace directory.
    pub fn setup_plan(&self, project_dir: &str) -> (r: SetupPlan)
        ensures
            files_view(r.files@) == plan_files_view(*self),
            commands_view(r.commands@) == plan_commands_view(*self, project_dir@),
            opt_path_view(r.artifact) == plan_artifact_view(*self, project_dir@),
    {
        match self {
            LanguageRunnable::CompiledNative(rr) => rr.setup_plan(project_dir),
            LanguageRunnable::InterpretedWithPackageManager(nr) => nr.setup_plan(project_dir),
            LanguageRunnable::InterpretedWithVirtualEnv(pr) => pr.setup_plan(project_dir),
            LanguageRunnable::RawCommand(_) => {
                let r = SetupPlan { files: Vec::new(), commands: Vec::new(), artifact: None };
                proof {
                    assert(files_view(r.files@) =~= plan_files_view(*self));
                    assert(commands_view(r.commands@) =~= plan_commands_view(*self, project_dir@));
                }
                r
            },
        }
    }

    /// The invocation handed to the mirroring tool for prepared code; a
    /// raw command line that cannot be tokenized is an invalid command.
    pub fn command_args(&self, project_dir: &str) -> (r: Result<Vec<String>, SetupError>)
        ensures
            match invocation_view(*self, project_dir@) {
                Some(inv) => r matches Ok(v) && strings_view(v@) == inv,
                None => r matches Err(e) && (e matches SetupError::InvalidCommand(m) && m@
                    == "missing closing quote"@),
            },
    {
        match self {
            LanguageRunnable::CompiledNative(rr) => rr.get_command_args(project_dir),
            LanguageRunnable::InterpretedWithPackageManager(nr) => nr.get_command_args(
                project_dir,
            ),
            LanguageRunnable::InterpretedWithVirtualEnv(pr) => pr.get_command_args(project_dir),
            LanguageRunnable::RawCommand(raw) => split(raw.command_line.as_str()),
        }
    }
}

} // verus!
