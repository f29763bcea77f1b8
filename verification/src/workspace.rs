//! Workspace naming.
//!
//! Every request gets its own scratch directory under a fixed prefix,
//! distinguished by a freshly drawn random token. The caller creates the
//! directory when the orchestrator asks for it and removes it when asked,
//! on every exit path.

use vstd::prelude::*;

use vstd::string::StringExecFns;

verus! {

/// The fixed prefix every workspace directory lies under.
pub open spec fn workspace_prefix() -> Seq<char> {
    "/tmp/mirrord_agent_code_"@
}

/// A freshly chosen directory path: the fixed prefix followed by a
/// 36-character random token.
pub open spec fn is_workspace_dir(p: Seq<char>) -> bool {
    p.len() == workspace_prefix().len() + 36 && p.subrange(
        0,
        workspace_prefix().len() as int,
    ) == workspace_prefix()
}

/// Relies on `uuid::Uuid::new_v4` and its `Display` form: a version-4
/// identifier printed as 36 hyphenated lower-case hexadecimal characters.
/// The value is random; nothing is assumed of it beyond its length.
#[verifier::external_body]
fn fresh_token() -> (r: String)
    ensures
        r@.len() == 36,
{
    uuid::Uuid::new_v4().to_string()
}

/// Draws a fresh workspace directory path. Two calls may differ; every
/// result lies under the fixed prefix.
pub fn workspace_dir() -> (r: String)
    ensures
        is_workspace_dir(r@),
{
    let mut s = String::from_str("/tmp/mirrord_agent_code_");
    let token = fresh_token();
    s.append(token.as_str());
    proof {
        assert(s@.subrange(0, workspace_prefix().len() as int) =~= workspace_prefix());
    }
    s
}

} // verus!
