//! The target resolver.
//!
//! A logical deployment name is mapped to the name of one currently
//! running instance by the cluster query tool, invoked with a label
//! selector derived from the deployment name. The query runs fresh for
//! every request; nothing is cached. This module builds the query's
//! arguments and classifies its outcome; the caller runs the tool.

use vstd::prelude::*;

use crate::errors::ResolutionError;
use crate::process::CommandOutcome;
use crate::text::{strings_view, push_word, push_owned};
use vstd::string::StringExecFns;

verus! {

/// The bounded wait for the cluster query, in seconds.
pub const KUBECTL_TIMEOUT_SECS: u64 = 30;

/// A deployment name resolved to one running instance.
#[derive(Debug, Clone, PartialEq, Eq)]
pub struct ResolvedTarget {
    /// The namespace the instance was found in.
    pub namespace: String,
    /// The name of the running instance.
    pub pod_name: String,
}

/// The arguments of one cluster query: list the running pods matching the
/// deployment's app label and print the first one's name.
pub open spec fn query_args_view(deployment: Seq<char>, namespace: Seq<char>) -> Seq<Seq<char>> {
    seq![
        "get"@,
        "pods"@,
        "-n"@,
        namespace,
        "-l"@,
        "app="@ + deployment,
        "-o"@,
        "jsonpath={.items[0].metadata.name}"@,
    ]
}

/// Builds the cluster query's argument list.
pub fn kubectl_query_args(deployment: &str, namespace: &str) -> (r: Vec<String>)
    ensures
        strings_view(r@) == query_args_view(deployment@, namespace@),
{
    let mut r: Vec<String> = Vec::new();
    push_word(&mut r, "get");
    push_word(&mut r, "pods");
    push_word(&mut r, "-n");
    push_word(&mut r, namespace);
    push_word(&mut r, "-l");
    let mut selector = String::from_str("app=");
    selector.append(deployment);
    push_owned(&mut r, selector);
    push_word(&mut r, "-o");
    push_word(&mut r, "jsonpath={.items[0].metadata.name}");
    proof {
        assert(strings_view(r@) =~= query_args_view(deployment@, namespace@));
    }
    r
}

/// The query completed and printed at least one instance name.
pub open spec fn query_found(o: CommandOutcome) -> bool {
    o matches CommandOutcome::Completed { code, stdout, .. } && code == Some(0i32) && stdout@.len()
        > 0
}

/// The resolution error owed for a query outcome that found no instance.
pub open spec fn query_error_matches(o: CommandOutcome, re: ResolutionError) -> bool {
    match o {
        CommandOutcome::Completed { code, stdout, stderr } => if code == Some(0i32) && stdout@.len()
            == 0 {
            re == ResolutionError::NotFound
        } else if code != Some(0i32) {
            re == ResolutionError::QueryFailed(stderr)
        } else {
            false
        },
        CommandOutcome::NotFound => re matches ResolutionError::QueryFailed(m) && m@
            == "the cluster query tool was not found on the search path"@,
        CommandOutcome::StartFailed(m) => re == ResolutionError::QueryFailed(m),
        CommandOutcome::TimedOut => re == ResolutionError::Timeout,
    }
}

/// Classifies what the completed query printed: the first matching running
/// instance's name on success, empty output when no instance matched, and
/// a non-zero exit with diagnostic text on failure.
pub fn handle_kubectl_output(success: bool, stdout: String, stderr: String) -> (r: Result<
    String,
    ResolutionError,
>)
    ensures
        success && stdout@.len() > 0 ==> r == Ok::<String, ResolutionError>(stdout),
        success && stdout@.len() == 0 ==> r == Err::<String, ResolutionError>(
            ResolutionError::NotFound,
        ),
        !success ==> r == Err::<String, ResolutionError>(ResolutionError::QueryFailed(stderr)),
{
    if success {
        if stdout.as_str().is_empty() {
            Err(ResolutionError::NotFound)
        } else {
            Ok(stdout)
        }
    } else {
        Err(ResolutionError::QueryFailed(stderr))
    }
}

/// Classifies the outcome of the whole query: the resolved instance name,
/// or the resolution error owed for the outcome.
pub fn classify_query(o: CommandOutcome) -> (r: Result<String, ResolutionError>)
    ensures
        query_found(o) ==> (r matches Ok(pod) && o matches CommandOutcome::Completed {
            stdout,
            ..
        } && pod == stdout),
        !query_found(o) ==> (r matches Err(re) && query_error_matches(o, re)),
{
    match o {
        CommandOutcome::Completed { code, stdout, stderr } => {
            let success = match code {
                Some(c) => c == 0,
                None => false,
            };
            handle_kubectl_output(success, stdout, stderr)
        },
        CommandOutcome::NotFound => Err(
            ResolutionError::QueryFailed(
                String::from_str("the cluster query tool was not found on the search path"),
            ),
        ),
        CommandOutcome::StartFailed(m) => Err(ResolutionError::QueryFailed(m)),
        CommandOutcome::TimedOut => Err(ResolutionError::Timeout),
    }
}

/// Classifies the outcome of the whole query into the resolved target:
/// the namespace the query ran in, bound to the instance it found.
pub fn resolve_target(namespace: String, o: CommandOutcome) -> (r: Result<
    ResolvedTarget,
    ResolutionError,
>)
    ensures
        query_found(o) ==> (r matches Ok(t) && t.namespace == namespace && (
        o matches CommandOutcome::Completed { stdout, .. } && t.pod_name == stdout)),
        !query_found(o) ==> (r matches Err(re) && query_error_matches(o, re)),
{
    match classify_query(o) {
        Ok(pod_name) => Ok(ResolvedTarget { namespace, pod_name }),
        Err(re) => Err(re),
    }
}

} // verus!
