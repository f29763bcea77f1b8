//! The execution engine's pure parts and the orchestrator.
//!
//! The orchestrator drives one request through its lifecycle: acquire a
//! workspace, materialize and build the code, resolve the target, merge
//! the configuration, run the mirroring tool, and release the workspace
//! on every exit path before the result is surfaced. It is a state
//! machine over observed outcomes: the caller performs each requested
//! action (create or remove a directory, write files, run a bounded
//! command) and reports what happened; every decision in between is made
//! here.

use vstd::prelude::*;

use crate::config::{merged_members, target_data, update_mirrord_config};
use crate::errors::{ConfigError, ExecutionError, RunError, SetupError, WorkspaceError};
use crate::json::{parse_document, ser, JsonData};
use crate::process::{completed_ok, CommandOutcome};
use crate::resolve::{
    kubectl_query_args, query_args_view, query_error_matches, query_found, resolve_target,
    KUBECTL_TIMEOUT_SECS,
};
use crate::runnable::{
    commands_view, files_view, invocation_view, lemma_commands_view_index, opt_path_view,
    plan_artifact_view, plan_commands_view, plan_files_view, CommandSpec, FileSpec,
    LanguageRunnable,
};
use crate::text::{push_word, push_owned, strings_view};
use crate::workspace::{is_workspace_dir, workspace_dir};
use vstd::pervasive::unreached;
use vstd::string::StringExecFns;

verus! {

/// The bounded wait for the mirrored execution, in seconds.
pub const MIRRORD_EXEC_TIMEOUT_SECS: u64 = 120;

/// What a successful mirrored execution produced: stdout is the result
/// payload, stderr is kept for diagnostics.
#[derive(Debug, Clone, PartialEq, Eq)]
pub struct ExecutionOutcome {
    pub stdout: String,
    pub stderr: String,
}

/// The mirroring tool's argument list: the subcommand, the configuration
/// file, then the prepared invocation.
pub open spec fn mirrord_args_view(config_path: Seq<char>, invocation: Seq<Seq<char>>) -> Seq<
    Seq<char>,
> {
    seq!["exec"@, "--config-file"@, config_path, "--"@] + invocation
}

/// Builds the mirroring tool's argument list for a written configuration
/// file and a prepared invocation.
#[verifier::loop_isolation(false)]
pub fn mirrord_invocation(config_path: &str, invocation: &Vec<String>) -> (r: Vec<String>)
    ensures
        strings_view(r@) == mirrord_args_view(config_path@, strings_view(invocation@)),
{
    let mut r: Vec<String> = Vec::new();
    push_word(&mut r, "exec");
    push_word(&mut r, "--config-file");
    push_word(&mut r, config_path);
    push_word(&mut r, "--");
    let ghost lead = seq!["exec"@, "--config-file"@, config_path@, "--"@];
    proof {
        assert(strings_view(r@) =~= lead);
    }
    let mut k: usize = 0;
    while k < invocation.len()
        invariant
            k <= invocation@.len(),
            strings_view(r@) == lead + strings_view(invocation@.subrange(0, k as int)),
        decreases invocation@.len() - k,
    {
        let ghost prev = invocation@.subrange(0, k as int);
        let item = &invocation[k];
        push_owned(&mut r, item.clone());
        k = k + 1;
        proof {
            let cur = invocation@.subrange(0, k as int);
            assert(cur.drop_last() =~= prev);
            assert(cur.last() == invocation@[k - 1]);
            assert(strings_view(cur) == strings_view(prev).push(invocation@[k - 1]@));
            assert((lead + strings_view(prev)).push(invocation@[k - 1]@) =~= lead + strings_view(
                cur,
            ));
        }
    }
    proof {
        assert(invocation@.subrange(0, invocation@.len() as int) =~= invocation@);
    }
    r
}

/// Classifies the mirrored execution's outcome: exit zero is success with
/// the captured streams; everything else is the execution error owed.
pub fn classify_execution(o: CommandOutcome) -> (r: Result<ExecutionOutcome, ExecutionError>)
    ensures
        o matches CommandOutcome::Completed { code, stdout, stderr } ==> r == (if code
            == Some(0i32) {
            Ok::<ExecutionOutcome, ExecutionError>(ExecutionOutcome { stdout, stderr })
        } else {
            Err::<ExecutionOutcome, ExecutionError>(ExecutionError::NonZeroExit { code, stderr })
        }),
        o is NotFound ==> r == Err::<ExecutionOutcome, ExecutionError>(ExecutionError::ToolNotFound),
        o matches CommandOutcome::StartFailed(m) ==> r == Err::<ExecutionOutcome, ExecutionError>(
            ExecutionError::SpawnFailed(m),
        ),
        o is TimedOut ==> r == Err::<ExecutionOutcome, ExecutionError>(ExecutionError::Timeout),
{
    match o {
        CommandOutcome::Completed { code, stdout, stderr } => {
            let ok = match code {
                Some(c) => c == 0,
                None => false,
            };
            if ok {
                Ok(ExecutionOutcome { stdout, stderr })
            } else {
                Err(ExecutionError::NonZeroExit { code, stderr })
            }
        },
        CommandOutcome::NotFound => Err(ExecutionError::ToolNotFound),
        CommandOutcome::StartFailed(m) => Err(ExecutionError::SpawnFailed(m)),
        CommandOutcome::TimedOut => Err(ExecutionError::Timeout),
    }
}

/// The setup error owed for a toolchain command's failed outcome.
pub open spec fn setup_error_matches(program: Seq<char>, o: CommandOutcome, e: SetupError) -> bool {
    match o {
        CommandOutcome::Completed { code, stdout, stderr } => code != Some(0i32) && e
            == SetupError::ToolFailed(stderr),
        CommandOutcome::NotFound => e matches SetupError::ToolNotFound(m) && m@ == program,
        CommandOutcome::StartFailed(m) => e == SetupError::ToolStartFailed(m),
        CommandOutcome::TimedOut => e == SetupError::Timeout,
    }
}

/// Classifies a toolchain command's outcome; its stderr is surfaced
/// verbatim when it failed.
pub fn classify_setup_command(program: &str, o: CommandOutcome) -> (r: Result<(), SetupError>)
    ensures
        completed_ok(o) ==> r is Ok,
        !completed_ok(o) ==> (r matches Err(e) && setup_error_matches(program@, o, e)),
{
    match o {
        CommandOutcome::Completed { code, stdout, stderr } => {
            let ok = match code {
                Some(c) => c == 0,
                None => false,
            };
            if ok {
                Ok(())
            } else {
                Err(SetupError::ToolFailed(stderr))
            }
        },
        CommandOutcome::NotFound => Err(SetupError::ToolNotFound(String::from_str(program))),
        CommandOutcome::StartFailed(m) => Err(SetupError::ToolStartFailed(m)),
        CommandOutcome::TimedOut => Err(SetupError::Timeout),
    }
}

/// Where one request stands.
#[derive(Debug, Clone, Copy, PartialEq, Eq, Structural)]
pub enum Phase {
    /// Nothing happened yet.
    Created,
    /// The workspace directory's creation was requested.
    AcquiringWorkspace,
    /// The setup files' writing was requested.
    WritingFiles,
    /// One toolchain command is running.
    RunningCommand,
    /// The built artifact's existence check was requested.
    CheckingArtifact,
    /// The cluster query is running.
    Resolving,
    /// The mirrored execution is running.
    Executing,
    /// The workspace's removal was requested; the result is on record.
    Releasing,
    /// The result was surfaced.
    Done,
}

/// What the caller observed, in answer to the last action.
#[derive(Debug, PartialEq, Eq)]
pub enum Event {
    /// Begin the request.
    Start,
    /// The workspace directory was created, or could not be.
    WorkspaceReady(Result<(), String>),
    /// The setup files were written, or could not be.
    FilesWritten(Result<(), String>),
    /// A toolchain command finished.
    CommandDone(CommandOutcome),
    /// Whether the owed artifact exists.
    ArtifactChecked(bool),
    /// The cluster query finished.
    QueryDone(CommandOutcome),
    /// The mirrored execution finished.
    ExecDone(CommandOutcome),
    /// The workspace was removed (best effort; a failure is logged by the
    /// caller and not reported back).
    Released,
}

/// What the orchestrator asks the caller to do next.
#[derive(Debug, PartialEq, Eq)]
pub enum Action {
    /// Create this directory (and nothing else).
    CreateWorkspace { dir: String },
    /// Write these files under the directory, creating parents as needed.
    WriteFiles { dir: String, files: Vec<FileSpec> },
    /// Run this bounded command with the directory as working directory.
    RunCommand { dir: String, command: CommandSpec },
    /// Report whether this path exists.
    CheckArtifact { path: String },
    /// Run the cluster query tool with these arguments, bounded.
    RunQuery { args: Vec<String>, timeout_secs: u64 },
    /// Write `config` to a private temporary file and run the mirroring
    /// tool on it with the prepared invocation, bounded; the file's
    /// lifetime spans the execution and it is removed afterwards.
    Execute { config: String, invocation: Vec<String>, timeout_secs: u64 },
    /// Remove this directory tree, best effort.
    RemoveWorkspace { dir: String },
    /// The request is over; surface this result.
    Finish { result: Result<String, RunError> },
}

/// One request's orchestrator.
#[derive(Debug)]
pub struct Orchestrator {
    pub runnable: LanguageRunnable,
    pub deployment: String,
    pub namespace: String,
    pub mirrord_config: String,
    pub phase: Phase,
    /// The request's directory, fixed when the request starts.
    pub workspace: Option<String>,
    /// The directory was created and not yet removed.
    pub holds_workspace: bool,
    /// The setup commands not yet run.
    pub commands: Vec<CommandSpec>,
    /// The artifact not yet checked.
    pub artifact: Option<String>,
    /// The program of the toolchain command now running.
    pub current_program: Option<String>,
    /// The result awaiting cleanup.
    pub pending: Option<Result<String, RunError>>,
}

/// The request's directory, empty before one was chosen.
pub open spec fn dir_view(o: Orchestrator) -> Seq<char> {
    match o.workspace {
        Some(d) => d@,
        None => Seq::empty(),
    }
}

/// The running toolchain command's program name.
pub open spec fn program_view(o: Orchestrator) -> Seq<char> {
    match o.current_program {
        Some(p) => p@,
        None => Seq::empty(),
    }
}

impl Orchestrator {
    /// The state is consistent with its phase.
    pub open spec fn wf(self) -> bool {
        &&& match self.phase {
            Phase::Created => !self.holds_workspace && self.workspace is None && self.pending
                is None,
            Phase::AcquiringWorkspace => !self.holds_workspace && self.workspace is Some
                && self.pending is None,
            Phase::WritingFiles | Phase::RunningCommand | Phase::CheckingArtifact
                | Phase::Resolving | Phase::Executing => self.holds_workspace && self.workspace
                is Some && self.pending is None,
            Phase::Releasing => self.holds_workspace && self.workspace is Some && self.pending
                is Some,
            Phase::Done => !self.holds_workspace,
        }
        &&& (self.workspace matches Some(d) ==> is_workspace_dir(d@))
        &&& (self.phase == Phase::CheckingArtifact ==> self.artifact is Some)
        &&& (self.phase == Phase::RunningCommand ==> self.current_program is Some)
    }

    /// Which event the orchestrator is waiting for.
    pub open spec fn expects(self, e: Event) -> bool {
        match self.phase {
            Phase::Created => e is Start,
            Phase::AcquiringWorkspace => e is WorkspaceReady,
            Phase::WritingFiles => e is FilesWritten,
            Phase::RunningCommand => e is CommandDone,
            Phase::CheckingArtifact => e is ArtifactChecked,
            Phase::Resolving => e is QueryDone,
            Phase::Executing => e is ExecDone,
            Phase::Releasing => e is Released,
            Phase::Done => false,
        }
    }

    /// A fresh orchestrator for one request.
    pub fn new(
        runnable: LanguageRunnable,
        deployment: String,
        namespace: String,
        mirrord_config: String,
    ) -> (r: Orchestrator)
        ensures
            r.wf(),
            r.phase == Phase::Created,
            !r.holds_workspace,
            r.runnable == runnable,
            r.deployment == deployment,
            r.namespace == namespace,
            r.mirrord_config == mirrord_config,
    {
        Orchestrator {
            runnable,
            deployment,
            namespace,
            mirrord_config,
            phase: Phase::Created,
            workspace: None,
            holds_workspace: false,
            commands: Vec::new(),
            artifact: None,
            current_program: None,
            pending: None,
        }
    }
}

/// The request's fixed data is carried unchanged.
pub open spec fn carries(pre: Orchestrator, post: Orchestrator) -> bool {
    &&& post.runnable == pre.runnable
    &&& post.deployment == pre.deployment
    &&& post.namespace == pre.namespace
    &&& post.mirrord_config == pre.mirrord_config
}

/// The step put a result on record and asked for the workspace's removal.
pub open spec fn cleanup_requested(pre: Orchestrator, post: Orchestrator, a: Action) -> bool {
    &&& post.phase == Phase::Releasing
    &&& post.holds_workspace
    &&& post.workspace == pre.workspace
    &&& post.pending is Some
    &&& a matches Action::RemoveWorkspace { dir } && Some(dir) == pre.workspace
}

/// The step moved setup forward: the next command, the artifact check, or
/// on to resolution.
pub open spec fn advances_setup(
    post: Orchestrator,
    a: Action,
    cmds: Seq<(Seq<char>, Seq<Seq<char>>, u64)>,
    artifact: Option<Seq<char>>,
    dep: Seq<char>,
    ns: Seq<char>,
    dir: Seq<char>,
) -> bool {
    if cmds.len() > 0 {
        &&& post.phase == Phase::RunningCommand
        &&& commands_view(post.commands@) == cmds.drop_first()
        &&& opt_path_view(post.artifact) == artifact
        &&& a matches Action::RunCommand { dir: d, command } && d@ == dir && (
            command.program@,
            strings_view(command.args@),
            command.timeout_secs,
        ) == cmds[0] && program_view(post) == cmds[0].0
    } else if artifact is Some {
        &&& post.phase == Phase::CheckingArtifact
        &&& opt_path_view(post.artifact) == artifact
        &&& a matches Action::CheckArtifact { path } && Some(path@) == artifact
    } else {
        &&& post.phase == Phase::Resolving
        &&& a matches Action::RunQuery { args, timeout_secs } && strings_view(args@)
            == query_args_view(dep, ns) && timeout_secs == KUBECTL_TIMEOUT_SECS
    }
}

impl Orchestrator {
    /// Puts a failure on record and asks for cleanup.
    fn settle(&mut self, result: Result<String, RunError>) -> (a: Action)
        requires
            old(self).holds_workspace,
            old(self).workspace matches Some(d) && is_workspace_dir(d@),
        ensures
            final(self).wf(),
            carries(*old(self), *final(self)),
            cleanup_requested(*old(self), *final(self), a),
            final(self).pending == Some(result),
    {
        self.pending = Some(result);
        self.phase = Phase::Releasing;
        let dir = match &self.workspace {
            Some(d) => d.clone(),
            None => unreached(),
        };
        Action::RemoveWorkspace { dir }
    }

    /// Asks for the next setup step, or for resolution once setup is done.
    fn advance_setup(&mut self) -> (a: Action)
        requires
            old(self).holds_workspace,
            old(self).workspace matches Some(d) && is_workspace_dir(d@),
            old(self).pending is None,
        ensures
            final(self).wf(),
            carries(*old(self), *final(self)),
            final(self).holds_workspace,
            final(self).workspace == old(self).workspace,
            final(self).pending is None,
            advances_setup(
                *final(self),
                a,
                commands_view(old(self).commands@),
                opt_path_view(old(self).artifact),
                old(self).deployment@,
                old(self).namespace@,
                dir_view(*old(self)),
            ),
            !(a is Finish),
            !(a is Execute),
    {
        proof {
            lemma_commands_view_index(self.commands@);
        }
        if self.commands.len() > 0 {
            let ghost cmds0 = self.commands@;
            let command = self.commands.remove(0);
            proof {
                assert(self.commands@ =~= cmds0.drop_first());
                lemma_commands_view_index(self.commands@);
                assert(commands_view(self.commands@) =~= commands_view(cmds0).drop_first());
            }
            self.current_program = Some(command.program.clone());
            self.phase = Phase::RunningCommand;
            let dir = match &self.workspace {
                Some(d) => d.clone(),
                None => unreached(),
            };
            Action::RunCommand { dir, command }
        } else if self.artifact.is_some() {
            let path = match &self.artifact {
                Some(p) => p.clone(),
                None => unreached(),
            };
            self.phase = Phase::CheckingArtifact;
            Action::CheckArtifact { path }
        } else {
            self.phase = Phase::Resolving;
            let args = kubectl_query_args(self.deployment.as_str(), self.namespace.as_str());
            Action::RunQuery { args, timeout_secs: KUBECTL_TIMEOUT_SECS }
        }
    }

    /// Advances the request by one observed event and says what to do
    /// next. Every path through a request releases its workspace before
    /// the result is surfaced, a failed resolution short-circuits past
    /// execution straight to cleanup, and a timed-out execution is
    /// surfaced as the execution timeout error.
    pub fn step(&mut self, e: Event) -> (a: Action)
        requires
            old(self).wf(),
            old(self).expects(e),
        ensures
            final(self).wf(),
            carries(*old(self), *final(self)),
            a is Finish ==> final(self).phase == Phase::Done && !final(self).holds_workspace,
            a is Execute ==> old(self).phase == Phase::Resolving,
            old(self).holds_workspace && !final(self).holds_workspace ==> e is Released,
            !old(self).holds_workspace && final(self).holds_workspace ==> (
            e matches Event::WorkspaceReady(ws) && ws is Ok),
            old(self).phase == Phase::Created ==> (final(self).phase == Phase::AcquiringWorkspace
                && (a matches Action::CreateWorkspace { dir } && Some(dir) == final(self).workspace && is_workspace_dir(dir@))),
            old(self).phase == Phase::AcquiringWorkspace ==> (e matches Event::WorkspaceReady(ws)
                && match ws {
                Ok(u) => {
                    &&& final(self).holds_workspace
                    &&& final(self).workspace == old(self).workspace
                    &&& if plan_files_view(old(self).runnable).len() > 0 {
                        &&& final(self).phase == Phase::WritingFiles
                        &&& commands_view(final(self).commands@) == plan_commands_view(
                            old(self).runnable,
                            dir_view(*old(self)),
                        )
                        &&& opt_path_view(final(self).artifact) == plan_artifact_view(
                            old(self).runnable,
                            dir_view(*old(self)),
                        )
                        &&& a matches Action::WriteFiles { dir, files } && Some(dir) == old(self).workspace && files_view(files@) == plan_files_view(old(self).runnable)
                    } else {
                        advances_setup(
                            *final(self),
                            a,
                            plan_commands_view(old(self).runnable, dir_view(*old(self))),
                            plan_artifact_view(old(self).runnable, dir_view(*old(self))),
                            old(self).deployment@,
                            old(self).namespace@,
                            dir_view(*old(self)),
                        )
                    }
                },
                Err(m) => {
                    &&& final(self).phase == Phase::Done
                    &&& !final(self).holds_workspace
                    &&& a == Action::Finish {
                        result: Err(RunError::Workspace(WorkspaceError::CreateFailed(m))),
                    }
                },
            }),
            old(self).phase == Phase::WritingFiles ==> (e matches Event::FilesWritten(ws)
                && match ws {
                Ok(u) => advances_setup(
                    *final(self),
                    a,
                    commands_view(old(self).commands@),
                    opt_path_view(old(self).artifact),
                    old(self).deployment@,
                    old(self).namespace@,
                    dir_view(*old(self)),
                ),
                Err(m) => cleanup_requested(*old(self), *final(self), a) && final(self).pending
                    == Some(Err::<String, RunError>(RunError::Setup(SetupError::WriteFailed(m)))),
            }),
            old(self).phase == Phase::RunningCommand ==> (e matches Event::CommandDone(o) && if
            completed_ok(o) {
                advances_setup(
                    *final(self),
                    a,
                    commands_view(old(self).commands@),
                    opt_path_view(old(self).artifact),
                    old(self).deployment@,
                    old(self).namespace@,
                    dir_view(*old(self)),
                )
            } else {
                &&& cleanup_requested(*old(self), *final(self), a)
                &&& final(self).pending matches Some(p) && (p matches Err(RunError::Setup(err))
                    && setup_error_matches(program_view(*old(self)), o, err))
            }),
            old(self).phase == Phase::CheckingArtifact ==> (e matches Event::ArtifactChecked(
                present,
            ) && if present {
                &&& final(self).phase == Phase::Resolving
                &&& a matches Action::RunQuery { args, timeout_secs } && strings_view(args@)
                    == query_args_view(old(self).deployment@, old(self).namespace@) && timeout_secs
                    == KUBECTL_TIMEOUT_SECS
            } else {
                &&& cleanup_requested(*old(self), *final(self), a)
                &&& final(self).pending matches Some(p) && (p matches Err(
                    RunError::Setup(SetupError::MissingArtifact(missing)),
                ) && Some(missing@) == opt_path_view(old(self).artifact))
            }),
            old(self).phase == Phase::Resolving ==> (e matches Event::QueryDone(o) && if
            query_found(o) {
                o matches CommandOutcome::Completed { stdout: pod, .. } && match parse_document(
                    old(self).mirrord_config@,
                ) {
                    None => cleanup_requested(*old(self), *final(self), a) && final(self).pending
                        == Some(Err::<String, RunError>(RunError::Config(ConfigError::InvalidJson))),
                    Some(d) => if !(d is Obj) {
                        cleanup_requested(*old(self), *final(self), a) && final(self).pending
                            == Some(
                            Err::<String, RunError>(RunError::Config(ConfigError::NotAnObject)),
                        )
                    } else {
                        match invocation_view(old(self).runnable, dir_view(*old(self))) {
                            None => cleanup_requested(*old(self), *final(self), a) && (final(self).pending matches Some(p) && (p matches Err(
                                RunError::Setup(SetupError::InvalidCommand(m)),
                            ) && m@ == "missing closing quote"@)),
                            Some(inv) => {
                                &&& final(self).phase == Phase::Executing
                                &&& d matches JsonData::Obj(ms) && (a matches Action::Execute {
                                    config,
                                    invocation,
                                    timeout_secs,
                                } && config@ == ser(
                                    JsonData::Obj(
                                        merged_members(
                                            ms,
                                            target_data(pod@, old(self).namespace@),
                                        ),
                                    ),
                                ) && strings_view(invocation@) == inv && timeout_secs
                                    == MIRRORD_EXEC_TIMEOUT_SECS)
                            },
                        }
                    },
                }
            } else {
                &&& cleanup_requested(*old(self), *final(self), a)
                &&& final(self).pending matches Some(p) && (p matches Err(
                    RunError::Resolution(re),
                ) && query_error_matches(o, re))
            }),
            old(self).phase == Phase::Executing ==> (e matches Event::ExecDone(o) && {
                &&& cleanup_requested(*old(self), *final(self), a)
                &&& match o {
                    CommandOutcome::Completed { code, stdout, stderr } => if code == Some(0i32) {
                        final(self).pending == Some(Ok::<String, RunError>(stdout))
                    } else {
                        final(self).pending == Some(
                            Err::<String, RunError>(
                                RunError::Execution(ExecutionError::NonZeroExit { code, stderr }),
                            ),
                        )
                    },
                    CommandOutcome::NotFound => final(self).pending == Some(
                        Err::<String, RunError>(RunError::Execution(ExecutionError::ToolNotFound)),
                    ),
                    CommandOutcome::StartFailed(m) => final(self).pending == Some(
                        Err::<String, RunError>(RunError::Execution(ExecutionError::SpawnFailed(m))),
                    ),
                    CommandOutcome::TimedOut => final(self).pending == Some(
                        Err::<String, RunError>(RunError::Execution(ExecutionError::Timeout)),
                    ),
                }
            }),
            old(self).phase == Phase::Releasing ==> (final(self).phase == Phase::Done && !final(self).holds_workspace && (a matches Action::Finish { result } && Some(result) == old(self).pending)),
    {
        let ph = self.phase;
        match ph {
            Phase::Created => match e {
                Event::Start => {
                    let dir = workspace_dir();
                    let action_dir = dir.clone();
                    self.workspace = Some(dir);
                    self.phase = Phase::AcquiringWorkspace;
                    Action::CreateWorkspace { dir: action_dir }
                },
                _ => unreached(),
            },
            Phase::AcquiringWorkspace => match e {
                Event::WorkspaceReady(res) => match res {
                    Err(m) => {
                        self.phase = Phase::Done;
                        Action::Finish {
                            result: Err(RunError::Workspace(WorkspaceError::CreateFailed(m))),
                        }
                    },
                    Ok(u) => {
                        self.holds_workspace = true;
                        let dir = match &self.workspace {
                            Some(d) => d.clone(),
                            None => unreached(),
                        };
                        let plan = self.runnable.setup_plan(dir.as_str());
                        self.commands = plan.commands;
                        self.artifact = plan.artifact;
                        if plan.files.len() > 0 {
                            proof {
                                crate::runnable::lemma_files_view_len(plan.files@);
                            }
                            self.phase = Phase::WritingFiles;
                            Action::WriteFiles { dir, files: plan.files }
                        } else {
                            proof {
                                crate::runnable::lemma_files_view_len(plan.files@);
                            }
                            self.advance_setup()
                        }
                    },
                },
                _ => unreached(),
            },
            Phase::WritingFiles => match e {
                Event::FilesWritten(res) => match res {
                    Ok(u) => self.advance_setup(),
                    Err(m) => self.settle(Err(RunError::Setup(SetupError::WriteFailed(m)))),
                },
                _ => unreached(),
            },
            Phase::RunningCommand => match e {
                Event::CommandDone(o) => {
                    let program = match &self.current_program {
                        Some(p) => p.clone(),
                        None => unreached(),
                    };
                    self.current_program = None;
                    match classify_setup_command(program.as_str(), o) {
                        Ok(u) => self.advance_setup(),
                        Err(err) => self.settle(Err(RunError::Setup(err))),
                    }
                },
                _ => unreached(),
            },
            Phase::CheckingArtifact => match e {
                Event::ArtifactChecked(present) => {
                    if present {
                        self.phase = Phase::Resolving;
                        let args = kubectl_query_args(
                            self.deployment.as_str(),
                            self.namespace.as_str(),
                        );
                        Action::RunQuery { args, timeout_secs: KUBECTL_TIMEOUT_SECS }
                    } else {
                        let path = match &self.artifact {
                            Some(p) => p.clone(),
                            None => unreached(),
                        };
                        self.settle(Err(RunError::Setup(SetupError::MissingArtifact(path))))
                    }
                },
                _ => unreached(),
            },
            Phase::Resolving => match e {
                Event::QueryDone(o) => match resolve_target(self.namespace.clone(), o) {
                    Err(re) => self.settle(Err(RunError::Resolution(re))),
                    Ok(target) => {
                        let merged = update_mirrord_config(
                            self.mirrord_config.as_str(),
                            target.pod_name.as_str(),
                            target.namespace.as_str(),
                        );
                        match merged {
                            Err(ce) => self.settle(Err(RunError::Config(ce))),
                            Ok(config) => {
                                let dir = match &self.workspace {
                                    Some(d) => d.clone(),
                                    None => unreached(),
                                };
                                match self.runnable.command_args(dir.as_str()) {
                                    Err(se) => self.settle(Err(RunError::Setup(se))),
                                    Ok(invocation) => {
                                        self.phase = Phase::Executing;
                                        Action::Execute {
                                            config,
                                            invocation,
                                            timeout_secs: MIRRORD_EXEC_TIMEOUT_SECS,
                                        }
                                    },
                                }
                            },
                        }
                    },
                },
                _ => unreached(),
            },
            Phase::Executing => match e {
                Event::ExecDone(o) => match classify_execution(o) {
                    Ok(out) => self.settle(Ok(out.stdout)),
                    Err(ee) => self.settle(Err(RunError::Execution(ee))),
                },
                _ => unreached(),
            },
            Phase::Releasing => match e {
                Event::Released => {
                    self.holds_workspace = false;
                    self.phase = Phase::Done;
                    let result = match self.pending.take() {
                        Some(r) => r,
                        None => unreached(),
                    };
                    Action::Finish { result }
                },
                _ => unreached(),
            },
            Phase::Done => unreached(),
        }
    }
}

} // verus!
