//! Launch planner: decides which executable runs the worker and which entry
//! artifact it executes, and fails when the entry artifact is absent.
//!
//! The planner never touches the filesystem itself: the caller probes the two
//! locations named by `entry_artifact_path` and `bundled_interpreter_path`
//! and hands in the outcomes, so planning is a pure decision over them.

use vstd::prelude::*;
use crate::paths::{joined, ResolvedPaths};

verus! {

/// Where the worker's entry artifact must sit under the resource directory.
pub open spec fn entry_artifact_spec(resource_dir: Seq<char>) -> Seq<char> {
    joined(resource_dir, "api/dist/index.js"@)
}

/// Where a bundled interpreter would sit under the resource directory.
pub open spec fn bundled_interpreter_spec(resource_dir: Seq<char>) -> Seq<char> {
    joined(resource_dir, "bin/node"@)
}

/// The worker's working directory under the resource directory.
pub open spec fn working_dir_spec(resource_dir: Seq<char>) -> Seq<char> {
    joined(resource_dir, "api"@)
}

/// The location the caller must probe for the entry artifact.
pub fn entry_artifact_path(paths: &ResolvedPaths) -> (r: String)
    ensures
        r@ == entry_artifact_spec(paths.resource_dir@),
{
    crate::paths::join_path(paths.resource_dir.as_str(), "api/dist/index.js")
}

/// The location the caller must probe for a bundled interpreter.
pub fn bundled_interpreter_path(paths: &ResolvedPaths) -> (r: String)
    ensures
        r@ == bundled_interpreter_spec(paths.resource_dir@),
{
    crate::paths::join_path(paths.resource_dir.as_str(), "bin/node")
}

/// Planning fails only when the entry artifact is absent; the error carries
/// the location where it was expected, for the user-facing report.
#[derive(Debug)]
pub enum LaunchError {
    EntryMissing { expected: String },
}

impl LaunchError {
    /// The location the error reports as missing.
    pub open spec fn expected_path(&self) -> Seq<char> {
        match self {
            LaunchError::EntryMissing { expected } => expected@,
        }
    }

    /// The diagnostic line for the user-facing report; it names the expected
    /// location of the missing artifact.
    pub fn message(&self) -> (r: String)
        ensures
            r@ == "API entry not found at "@ + self.expected_path(),
    {
        match self {
            LaunchError::EntryMissing { expected } => {
                let mut r = "API entry not found at ".to_owned();
                r.append(expected.as_str());
                r
            },
        }
    }
}

/// How the worker is launched: the executable, the entry artifact handed to
/// it as its argument, and the directory it runs in.
pub struct LaunchPlan {
    pub executable: String,
    pub entry_artifact: String,
    pub working_dir: String,
}

/// Decides the launch plan. `entry_exists` and `bundled_exists` report
/// whether the entry artifact and the bundled interpreter were found at the
/// locations `entry_artifact_path` and `bundled_interpreter_path` name.
///
/// Planning succeeds exactly when the entry artifact exists; nothing else is
/// inspected. A bundled interpreter is preferred for a consistent version;
/// otherwise the bare name `node` defers resolution to the OS search path at
/// spawn time, regardless of whether that name resolves on this machine.
pub fn plan(paths: &ResolvedPaths, entry_exists: bool, bundled_exists: bool) -> (r: Result<
    LaunchPlan,
    LaunchError,
>)
    ensures
        r is Ok <==> entry_exists,
        r is Ok ==> {
            &&& r->Ok_0.entry_artifact@ == entry_artifact_spec(paths.resource_dir@)
            &&& r->Ok_0.working_dir@ == working_dir_spec(paths.resource_dir@)
            &&& (bundled_exists ==> r->Ok_0.executable@ == bundled_interpreter_spec(
                paths.resource_dir@,
            ))
            &&& (!bundled_exists ==> r->Ok_0.executable@ == "node"@)
        },
        r is Err ==> r->Err_0.expected_path() == entry_artifact_spec(paths.resource_dir@),
{
    let entry_artifact = entry_artifact_path(paths);
    if !entry_exists {
        return Err(LaunchError::EntryMissing { expected: entry_artifact });
    }
    let executable = if bundled_exists {
        bundled_interpreter_path(paths)
    } else {
        "node".to_owned()
    };
    let working_dir = crate::paths::join_path(paths.resource_dir.as_str(), "api");
    Ok(LaunchPlan { executable, entry_artifact, working_dir })
}

} // verus!
