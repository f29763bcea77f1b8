//! The compiled-native runner.
//!
//! Source code is written into a generated package, compiled to a native
//! binary in the selected mode, and the binary is invoked directly. A
//! build that reports success but leaves no binary at the expected path
//! is still a setup failure, which the orchestrator checks through the
//! plan's artifact.

use vstd::prelude::*;

use crate::errors::SetupError;
use crate::executor::{Orchestrator, Phase};
use crate::runnable::{commands_view, files_view, CommandSpec, FileSpec, LanguageRunnable, SetupPlan};
use crate::text::{push_word, push_owned, strings_view};
use vstd::string::StringExecFns;

verus! {

/// The bounded wait for the build, in seconds.
pub const CARGO_BUILD_TIMEOUT_SECS: u64 = 180;

/// The build mode: fast and unoptimized, or optimized.
#[derive(Debug, Clone, Copy, PartialEq, Eq, Structural)]
pub enum BuildMode {
    Debug,
    Release,
}

/// A caller's request to run compiled code against a deployment.
#[derive(Debug, Clone, PartialEq, Eq)]
pub struct Request {
    /// The complete source of the program to compile and run.
    pub code: String,
    /// The deployment whose traffic is mirrored.
    pub deployment: String,
    /// The caller's partial mirroring configuration, as a JSON document.
    pub mirrord_config: String,
}

/// The compiled-native runner: the source and the selected build mode.
#[derive(Debug, Clone, PartialEq, Eq)]
pub struct RustRunner {
    pub code: String,
    pub mode: BuildMode,
}

/// The generated package manifest for the given build mode.
pub open spec fn rust_manifest(mode: BuildMode) -> Seq<char> {
    if mode is Debug {
        "[package]\nname = \"mirrord-agent-code\"\nversion = \"0.1.0\"\nedition = \"2021\"\n\n[dependencies]\nreqwest = { version = \"0.12\", features = [\"json\", \"blocking\"] }\nserde = { version = \"1.0\", features = [\"derive\"] }\nserde_json = \"1.0\"\nanyhow = \"1.0\"\n"@
            + "\n[profile.dev]\nopt-level = 0\nlto = false\npanic = \"unwind\"\nincremental = true\ncodegen-units = 256\n"@
    } else {
        "[package]\nname = \"mirrord-agent-code\"\nversion = \"0.1.0\"\nedition = \"2021\"\n\n[dependencies]\nreqwest = { version = \"0.12\", features = [\"json\", \"blocking\"] }\nserde = { version = \"1.0\", features = [\"derive\"] }\nserde_json = \"1.0\"\nanyhow = \"1.0\"\n"@
    }
}

/// The directory the build mode's output lands in.
pub open spec fn mode_dir(mode: BuildMode) -> Seq<char> {
    if mode is Debug {
        "debug"@
    } else {
        "release"@
    }
}

/// The files the setup step writes.
pub open spec fn rust_files_view(rr: RustRunner) -> Seq<(Seq<char>, Seq<char>)> {
    seq![("Cargo.toml"@, rust_manifest(rr.mode)), ("src/main.rs"@, rr.code@)]
}

/// The build command the setup step runs.
pub open spec fn rust_commands_view(rr: RustRunner) -> Seq<(Seq<char>, Seq<Seq<char>>, u64)> {
    seq![
        (
            "cargo"@,
            if rr.mode is Debug {
                seq!["build"@]
            } else {
                seq!["build"@, "--release"@]
            },
            CARGO_BUILD_TIMEOUT_SECS,
        ),
    ]
}

/// Where the built binary must lie.
pub open spec fn rust_binary_path_view(rr: RustRunner, dir: Seq<char>) -> Seq<char> {
    dir + "/target/"@ + mode_dir(rr.mode) + "/mirrord-agent-code"@
}

impl RustRunner {
    /// The manifest text for this runner's mode.
    pub fn manifest_text(&self) -> (r: String)
        ensures
            r@ == rust_manifest(self.mode),
    {
        let mut s = String::from_str(
            "[package]\nname = \"mirrord-agent-code\"\nversion = \"0.1.0\"\nedition = \"2021\"\n\n[dependencies]\nreqwest = { version = \"0.12\", features = [\"json\", \"blocking\"] }\nserde = { version = \"1.0\", features = [\"derive\"] }\nserde_json = \"1.0\"\nanyhow = \"1.0\"\n",
        );
        match self.mode {
            BuildMode::Debug => {
                s.append(
                    "\n[profile.dev]\nopt-level = 0\nlto = false\npanic = \"unwind\"\nincremental = true\ncodegen-units = 256\n",
                );
            },
            BuildMode::Release => {},
        }
        s
    }

    /// Where this runner's built binary must lie under the workspace.
    pub fn get_binary_path(&self, project_dir: &str) -> (r: String)
        ensures
            r@ == rust_binary_path_view(*self, project_dir@),
    {
        let mut s = String::from_str(project_dir);
        s.append("/target/");
        match self.mode {
            BuildMode::Debug => s.append("debug"),
            BuildMode::Release => s.append("release"),
        }
        s.append("/mirrord-agent-code");
        proof {
            assert(s@ =~= rust_binary_path_view(*self, project_dir@));
        }
        s
    }

    /// The setup plan: manifest and source, one build, one binary owed.
    pub fn setup_plan(&self, project_dir: &str) -> (r: SetupPlan)
        ensures
            files_view(r.files@) == rust_files_view(*self),
            commands_view(r.commands@) == rust_commands_view(*self),
            r.artifact matches Some(p) && p@ == rust_binary_path_view(*self, project_dir@),
    {
        let mut files: Vec<FileSpec> = Vec::new();
        files.push(
            FileSpec { rel_path: String::from_str("Cargo.toml"), contents: self.manifest_text() },
        );
        files.push(
            FileSpec {
                rel_path: String::from_str("src/main.rs"),
                contents: self.code.clone(),
            },
        );
        let mut args: Vec<String> = Vec::new();
        push_word(&mut args, "build");
        match self.mode {
            BuildMode::Debug => {},
            BuildMode::Release => {
                push_word(&mut args, "--release");
            },
        }
        let mut commands: Vec<CommandSpec> = Vec::new();
        commands.push(
            CommandSpec {
                program: String::from_str("cargo"),
                args,
                timeout_secs: CARGO_BUILD_TIMEOUT_SECS,
            },
        );
        let artifact = Some(self.get_binary_path(project_dir));
        proof {
            assert(files@.drop_last().drop_last() =~= Seq::<FileSpec>::empty());
            assert(files_view(files@.drop_last().drop_last()) == Seq::<
                (Seq<char>, Seq<char>),
            >::empty());
            assert(files@.drop_last().last() == files@[0]);
            assert(files_view(files@.drop_last()) =~= seq![
                ("Cargo.toml"@, rust_manifest(self.mode)),
            ]);
            assert(files_view(files@) =~= rust_files_view(*self));
            assert(commands@.drop_last() =~= Seq::<CommandSpec>::empty());
            assert(commands_view(commands@.drop_last()) == Seq::<
                (Seq<char>, Seq<Seq<char>>, u64),
            >::empty());
            assert(strings_view(commands@[0].args@) =~= rust_commands_view(*self)[0].1);
            assert(commands_view(commands@) =~= rust_commands_view(*self));
        }
        SetupPlan { files, commands, artifact }
    }

    /// The invocation: the built binary alone.
    pub fn get_command_args(&self, project_dir: &str) -> (r: Result<Vec<String>, SetupError>)
        ensures
            r matches Ok(v) && strings_view(v@) == seq![
                rust_binary_path_view(*self, project_dir@),
            ],
    {
        let mut v: Vec<String> = Vec::new();
        push_owned(&mut v, self.get_binary_path(project_dir));
        Ok(v)
    }
}

/// Prepares the orchestrator for one request, in the given build mode,
/// against the default namespace.
pub fn run(request: Request, mode: BuildMode) -> (r: Orchestrator)
    ensures
        r.wf(),
        r.phase == Phase::Created,
        !r.holds_workspace,
        r.runnable == LanguageRunnable::CompiledNative(
            RustRunner { code: request.code, mode },
        ),
        r.deployment == request.deployment,
        r.namespace@ == "default"@,
        r.mirrord_config == request.mirrord_config,
{
    Orchestrator::new(
        LanguageRunnable::CompiledNative(RustRunner { code: request.code, mode }),
        request.deployment,
        String::from_str("default"),
        request.mirrord_config,
    )
}

} // verus!
