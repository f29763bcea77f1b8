use mirrord_runner::errors::{
    ConfigError, ExecutionError, ResolutionError, RunError, SetupError, WorkspaceError,
};
use mirrord_runner::executor::{
    classify_execution, classify_setup_command, mirrord_invocation, Action, Event, Orchestrator,
};
use mirrord_runner::process::CommandOutcome;
use mirrord_runner::runnable::LanguageRunnable;
use mirrord_runner::tools::rust::BuildMode;

fn completed(code: i32, stdout: &str, stderr: &str) -> CommandOutcome {
    CommandOutcome::Completed {
        code: Some(code),
        stdout: stdout.to_string(),
        stderr: stderr.to_string(),
    }
}

#[test]
fn execution_outcomes_classify() {
    let ok = classify_execution(completed(0, "payload", "noise")).unwrap();
    assert_eq!(ok.stdout, "payload");
    assert_eq!(ok.stderr, "noise");

    let nonzero = classify_execution(completed(3, "", "boom"));
    assert!(matches!(
        nonzero,
        Err(ExecutionError::NonZeroExit { code: Some(3), stderr }) if stderr == "boom"
    ));

    let signalled = classify_execution(CommandOutcome::Completed {
        code: None,
        stdout: String::new(),
        stderr: String::new(),
    });
    assert!(matches!(signalled, Err(ExecutionError::NonZeroExit { code: None, .. })));

    let missing = classify_execution(CommandOutcome::NotFound);
    assert!(matches!(missing, Err(ExecutionError::ToolNotFound)));

    let start_failed = classify_execution(CommandOutcome::StartFailed("eperm".to_string()));
    assert!(matches!(start_failed, Err(ExecutionError::SpawnFailed(m)) if m == "eperm"));

    // a deadline that elapses is surfaced as the execution timeout
    let timed_out = classify_execution(CommandOutcome::TimedOut);
    assert!(matches!(timed_out, Err(ExecutionError::Timeout)));
}

#[test]
fn setup_command_outcomes_classify() {
    assert!(classify_setup_command("cargo", completed(0, "", "")).is_ok());
    assert!(matches!(
        classify_setup_command("cargo", completed(101, "", "compile error")),
        Err(SetupError::ToolFailed(m)) if m == "compile error"
    ));
    assert!(matches!(
        classify_setup_command("npm", CommandOutcome::NotFound),
        Err(SetupError::ToolNotFound(m)) if m == "npm"
    ));
    assert!(matches!(
        classify_setup_command("pip", CommandOutcome::StartFailed("eacces".to_string())),
        Err(SetupError::ToolStartFailed(m)) if m == "eacces"
    ));
    assert!(matches!(
        classify_setup_command("cargo", CommandOutcome::TimedOut),
        Err(SetupError::Timeout)
    ));
}

#[test]
fn mirrord_arguments_are_ordered() {
    let invocation = vec!["/bin/server".to_string(), "--port".to_string(), "80".to_string()];
    let args = mirrord_invocation("/tmp/conf.json", &invocation);
    assert_eq!(
        args,
        vec!["exec", "--config-file", "/tmp/conf.json", "--", "/bin/server", "--port", "80"]
    );
}

#[test]
fn workspace_paths_have_the_fixed_prefix() {
    let dir = mirrord_runner::workspace::workspace_dir();
    assert!(dir.starts_with("/tmp/mirrord_agent_code_"));
    assert_eq!(dir.len(), "/tmp/mirrord_agent_code_".len() + 36);
    let again = mirrord_runner::workspace::workspace_dir();
    assert_ne!(dir, again);
}

fn raw_orchestrator(cmd: &str) -> Orchestrator {
    let service = mirrord_runner::tools::tool::MirrordService::new();
    service.run(mirrord_runner::tools::tool::Request {
        cmd_str: cmd.to_string(),
        deployment: "checkout".to_string(),
        mirrord_config: "{\"feature\":{\"network\":{\"incoming\":{\"mode\":\"mirror\",\"ports\":[8080]}}}}".to_string(),
    })
}

#[test]
fn raw_command_happy_path() {
    let mut orch = raw_orchestrator("echo \"a b\" c");

    let a = orch.step(Event::Start);
    let dir = match a {
        Action::CreateWorkspace { dir } => dir,
        other => panic!("expected workspace creation, got {:?}", other),
    };
    assert!(dir.starts_with("/tmp/mirrord_agent_code_"));

    // a raw command writes nothing and builds nothing: resolution is next
    let a = orch.step(Event::WorkspaceReady(Ok(())));
    match &a {
        Action::RunQuery { args, timeout_secs } => {
            assert_eq!(args[4], "-l");
            assert_eq!(args[5], "app=checkout");
            assert_eq!(*timeout_secs, 30);
        }
        other => panic!("expected the cluster query, got {:?}", other),
    }

    let a = orch.step(Event::QueryDone(completed(0, "checkout-7f9", "")));
    match &a {
        Action::Execute { config, invocation, timeout_secs } => {
            assert_eq!(
                config,
                "{\"feature\":{\"network\":{\"incoming\":{\"mode\":\"mirror\",\"ports\":[8080]}}},\"target\":{\"namespace\":\"default\",\"path\":\"pod/checkout-7f9\"}}"
            );
            assert_eq!(invocation, &vec!["echo", "a b", "c"]);
            assert_eq!(*timeout_secs, 120);
        }
        other => panic!("expected execution, got {:?}", other),
    }

    let a = orch.step(Event::ExecDone(completed(0, "result payload", "diagnostics")));
    let removed = match a {
        Action::RemoveWorkspace { dir: d } => d,
        other => panic!("expected workspace removal, got {:?}", other),
    };
    assert_eq!(removed, dir);

    let a = orch.step(Event::Released);
    match a {
        Action::Finish { result } => assert_eq!(result.unwrap(), "result payload"),
        other => panic!("expected the finish, got {:?}", other),
    }
}

#[test]
fn resolution_not_found_short_circuits_to_cleanup() {
    let mut orch = raw_orchestrator("echo hi");
    orch.step(Event::Start);
    orch.step(Event::WorkspaceReady(Ok(())));

    // the query succeeded but printed nothing: no running instance
    let a = orch.step(Event::QueryDone(completed(0, "", "")));
    assert!(
        matches!(a, Action::RemoveWorkspace { .. }),
        "resolution failure must go straight to cleanup, got {:?}",
        a
    );

    let a = orch.step(Event::Released);
    match a {
        Action::Finish { result } => {
            assert_eq!(result, Err(RunError::Resolution(ResolutionError::NotFound)));
        }
        other => panic!("expected the finish, got {:?}", other),
    }
}

#[test]
fn execution_timeout_is_surfaced_after_cleanup() {
    let mut orch = raw_orchestrator("echo hi");
    orch.step(Event::Start);
    orch.step(Event::WorkspaceReady(Ok(())));
    orch.step(Event::QueryDone(completed(0, "checkout-7f9", "")));
    let a = orch.step(Event::ExecDone(CommandOutcome::TimedOut));
    assert!(matches!(a, Action::RemoveWorkspace { .. }));
    let a = orch.step(Event::Released);
    match a {
        Action::Finish { result } => {
            assert_eq!(result, Err(RunError::Execution(ExecutionError::Timeout)));
        }
        other => panic!("expected the finish, got {:?}", other),
    }
}

#[test]
fn invalid_config_fails_before_execution() {
    let service = mirrord_runner::tools::tool::MirrordService::new();
    let mut orch = service.run(mirrord_runner::tools::tool::Request {
        cmd_str: "echo hi".to_string(),
        deployment: "web".to_string(),
        mirrord_config: "not json".to_string(),
    });
    orch.step(Event::Start);
    orch.step(Event::WorkspaceReady(Ok(())));
    let a = orch.step(Event::QueryDone(completed(0, "web-1", "")));
    assert!(matches!(a, Action::RemoveWorkspace { .. }));
    let a = orch.step(Event::Released);
    match a {
        Action::Finish { result } => {
            assert_eq!(result, Err(RunError::Config(ConfigError::InvalidJson)));
        }
        other => panic!("expected the finish, got {:?}", other),
    }
}

#[test]
fn workspace_denied_finishes_without_cleanup() {
    let mut orch = raw_orchestrator("echo hi");
    orch.step(Event::Start);
    let a = orch.step(Event::WorkspaceReady(Err("read-only filesystem".to_string())));
    match a {
        Action::Finish { result } => {
            assert_eq!(
                result,
                Err(RunError::Workspace(WorkspaceError::CreateFailed(
                    "read-only filesystem".to_string()
                )))
            );
        }
        other => panic!("expected the finish, got {:?}", other),
    }
}

#[test]
fn compiled_build_without_binary_is_a_setup_error() {
    // the build exits zero but leaves nothing at the expected path
    let request = mirrord_runner::tools::rust::Request {
        code: "fn main() {}".to_string(),
        deployment: "checkout".to_string(),
        mirrord_config: "{}".to_string(),
    };
    let mut orch = mirrord_runner::tools::rust::run(request, BuildMode::Release);
    orch.step(Event::Start);

    let a = orch.step(Event::WorkspaceReady(Ok(())));
    let dir = match &a {
        Action::WriteFiles { dir, files } => {
            assert_eq!(files.len(), 2);
            assert_eq!(files[0].rel_path, "Cargo.toml");
            assert!(files[0].contents.contains("mirrord-agent-code"));
            assert_eq!(files[1].rel_path, "src/main.rs");
            assert_eq!(files[1].contents, "fn main() {}");
            dir.clone()
        }
        other => panic!("expected the files, got {:?}", other),
    };

    let a = orch.step(Event::FilesWritten(Ok(())));
    match &a {
        Action::RunCommand { dir: d, command } => {
            assert_eq!(d, &dir);
            assert_eq!(command.program, "cargo");
            assert_eq!(command.args, vec!["build", "--release"]);
            assert_eq!(command.timeout_secs, 180);
        }
        other => panic!("expected the build, got {:?}", other),
    }

    let a = orch.step(Event::CommandDone(completed(0, "", "")));
    let expected_binary = format!("{}/target/release/mirrord-agent-code", dir);
    match &a {
        Action::CheckArtifact { path } => assert_eq!(path, &expected_binary),
        other => panic!("expected the artifact check, got {:?}", other),
    }

    let a = orch.step(Event::ArtifactChecked(false));
    assert!(matches!(a, Action::RemoveWorkspace { .. }));
    let a = orch.step(Event::Released);
    match a {
        Action::Finish { result } => {
            assert_eq!(
                result,
                Err(RunError::Setup(SetupError::MissingArtifact(expected_binary)))
            );
        }
        other => panic!("expected the finish, got {:?}", other),
    }
}

#[test]
fn failed_build_surfaces_stderr() {
    let request = mirrord_runner::tools::rust::Request {
        code: "fn main() {".to_string(),
        deployment: "checkout".to_string(),
        mirrord_config: "{}".to_string(),
    };
    let mut orch = mirrord_runner::tools::rust::run(request, BuildMode::Debug);
    orch.step(Event::Start);
    orch.step(Event::WorkspaceReady(Ok(())));
    let a = orch.step(Event::FilesWritten(Ok(())));
    match &a {
        Action::RunCommand { command, .. } => assert_eq!(command.args, vec!["build"]),
        other => panic!("expected the build, got {:?}", other),
    }
    let a = orch.step(Event::CommandDone(completed(101, "", "unexpected end of file")));
    assert!(matches!(a, Action::RemoveWorkspace { .. }));
    let a = orch.step(Event::Released);
    match a {
        Action::Finish { result } => {
            assert_eq!(
                result,
                Err(RunError::Setup(SetupError::ToolFailed(
                    "unexpected end of file".to_string()
                )))
            );
        }
        other => panic!("expected the finish, got {:?}", other),
    }
}

#[test]
fn unsplittable_raw_command_is_an_invalid_command() {
    let mut orch = raw_orchestrator("echo 'unterminated");
    orch.step(Event::Start);
    orch.step(Event::WorkspaceReady(Ok(())));
    let a = orch.step(Event::QueryDone(completed(0, "checkout-7f9", "")));
    assert!(matches!(a, Action::RemoveWorkspace { .. }));
    let a = orch.step(Event::Released);
    match a {
        Action::Finish { result } => {
            assert_eq!(
                result,
                Err(RunError::Setup(SetupError::InvalidCommand(
                    "missing closing quote".to_string()
                )))
            );
        }
        other => panic!("expected the finish, got {:?}", other),
    }
}

#[test]
fn runnables_describe_their_plans() {
    let node = mirrord_runner::tools::node::NodeRunner { code: "x".to_string() };
    let plan = node.setup_plan("/w");
    assert_eq!(plan.files[0].rel_path, "package.json");
    assert!(plan.files[0].contents.contains("axios"));
    assert_eq!(plan.files[1].rel_path, "index.js");
    assert_eq!(plan.commands.len(), 1);
    assert_eq!(plan.commands[0].program, "npm");
    assert_eq!(plan.commands[0].args, vec!["install"]);
    assert_eq!(plan.commands[0].timeout_secs, 180);
    assert!(plan.artifact.is_none());
    assert_eq!(node.get_command_args("/w").unwrap(), vec!["node", "/w/index.js"]);

    let python = mirrord_runner::tools::python::PythonRunner { code: "y".to_string() };
    let plan = python.setup_plan("/w");
    assert_eq!(plan.files[0].rel_path, "main.py");
    assert_eq!(plan.files[1].rel_path, "requirements.txt");
    assert_eq!(plan.files[1].contents, "requests\n");
    assert_eq!(plan.commands.len(), 2);
    assert_eq!(plan.commands[0].program, "python3");
    assert_eq!(plan.commands[0].args, vec!["-m", "venv", "/w/.venv"]);
    assert_eq!(plan.commands[1].program, "/w/.venv/bin/pip");
    assert_eq!(plan.commands[1].args, vec!["install", "-r", "/w/requirements.txt"]);
    assert!(plan.artifact.is_none());
    assert_eq!(
        python.get_command_args("/w").unwrap(),
        vec!["/w/.venv/bin/python", "/w/main.py"]
    );

    let rust = mirrord_runner::tools::rust::RustRunner {
        code: "z".to_string(),
        mode: BuildMode::Debug,
    };
    assert_eq!(
        rust.get_binary_path("/w"),
        "/w/target/debug/mirrord-agent-code"
    );
    assert!(rust.manifest_text().contains("[profile.dev]"));
    let release = mirrord_runner::tools::rust::RustRunner {
        code: "z".to_string(),
        mode: BuildMode::Release,
    };
    assert!(!release.manifest_text().contains("[profile.dev]"));
}

#[test]
fn node_setup_runs_install_before_resolution() {
    let mut orch = mirrord_runner::tools::node::run(mirrord_runner::tools::node::Request {
        code: "console.log(1)".to_string(),
        deployment: "web".to_string(),
        mirrord_config: "{}".to_string(),
    });
    orch.step(Event::Start);
    let a = orch.step(Event::WorkspaceReady(Ok(())));
    match &a {
        Action::WriteFiles { files, .. } => {
            assert_eq!(files[0].rel_path, "package.json");
            assert_eq!(files[1].contents, "console.log(1)");
        }
        other => panic!("expected the files, got {:?}", other),
    }
    let a = orch.step(Event::FilesWritten(Ok(())));
    match &a {
        Action::RunCommand { command, .. } => {
            assert_eq!(command.program, "npm");
            assert_eq!(command.args, vec!["install"]);
        }
        other => panic!("expected the install, got {:?}", other),
    }
    // no artifact is owed: the query comes right after the install
    let a = orch.step(Event::CommandDone(completed(0, "", "")));
    assert!(matches!(a, Action::RunQuery { .. }));
}

#[test]
fn python_setup_runs_both_environment_steps() {
    let mut orch = mirrord_runner::tools::python::run(mirrord_runner::tools::python::Request {
        code: "print(1)".to_string(),
        deployment: "web".to_string(),
        mirrord_config: "{}".to_string(),
    });
    orch.step(Event::Start);
    let a = orch.step(Event::WorkspaceReady(Ok(())));
    let dir = match &a {
        Action::WriteFiles { dir, files } => {
            assert_eq!(files[0].rel_path, "main.py");
            assert_eq!(files[1].rel_path, "requirements.txt");
            dir.clone()
        }
        other => panic!("expected the files, got {:?}", other),
    };
    let a = orch.step(Event::FilesWritten(Ok(())));
    match &a {
        Action::RunCommand { command, .. } => {
            assert_eq!(command.program, "python3");
            assert_eq!(command.args, vec!["-m", "venv", format!("{}/.venv", dir).as_str()]);
        }
        other => panic!("expected the environment creation, got {:?}", other),
    }
    let a = orch.step(Event::CommandDone(completed(0, "", "")));
    match &a {
        Action::RunCommand { command, .. } => {
            assert_eq!(command.program, format!("{}/.venv/bin/pip", dir));
        }
        other => panic!("expected the install, got {:?}", other),
    }
    // a failed install surfaces pip's stderr
    let a = orch.step(Event::CommandDone(completed(1, "", "no matching distribution")));
    assert!(matches!(a, Action::RemoveWorkspace { .. }));
    let a = orch.step(Event::Released);
    match a {
        Action::Finish { result } => {
            assert_eq!(
                result,
                Err(RunError::Setup(SetupError::ToolFailed(
                    "no matching distribution".to_string()
                )))
            );
        }
        other => panic!("expected the finish, got {:?}", other),
    }
}

#[test]
fn services_prepare_their_runnables() {
    let service = mirrord_runner::run_service::MirrordService::new();
    let orch = service.run_service(
        mirrord_runner::run_service::MirrordRequest {
            code: "fn main() {}".to_string(),
            deployment: "web".to_string(),
            mirrord_config: "{}".to_string(),
        },
        BuildMode::Release,
    );
    assert_eq!(orch.deployment, "web");
    assert_eq!(orch.namespace, "default");
    assert!(matches!(orch.runnable, LanguageRunnable::CompiledNative(_)));

    let node_orch = mirrord_runner::tools::node::run(mirrord_runner::tools::node::Request {
        code: "c".to_string(),
        deployment: "web".to_string(),
        mirrord_config: "{}".to_string(),
    });
    assert!(matches!(node_orch.runnable, LanguageRunnable::InterpretedWithPackageManager(_)));

    let py_orch = mirrord_runner::tools::python::run(mirrord_runner::tools::python::Request {
        code: "c".to_string(),
        deployment: "web".to_string(),
        mirrord_config: "{}".to_string(),
    });
    assert!(matches!(py_orch.runnable, LanguageRunnable::InterpretedWithVirtualEnv(_)));
}
