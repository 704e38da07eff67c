//! Lifecycle bridge: the decisions behind the two host-delivered events.
//!
//! On "application ready" the bridge decides whether to launch the worker at
//! all (never in a debug build, where the developer runs it independently)
//! and, if so, composes path resolution, launch planning, and environment
//! construction into one launch preparation. On "window close requested" the
//! caller drives the supervisor's `stop`; no decision is needed there.
//!
//! Every failure on the ready path is reported once on the diagnostic stream
//! and swallowed: the application window still opens, possibly without a
//! backend. `diagnostic` derives the report line for each failure.

use vstd::prelude::*;
use vstd::string::StringExecFns;
use crate::environment::{build_environment, database_url_spec, WorkerEnvironment};
use crate::paths::{joined, ResolvedPaths};
use crate::planner::{
    bundled_interpreter_spec, entry_artifact_spec, plan, working_dir_spec, LaunchError, LaunchPlan,
};

verus! {

/// What the ready handler does in this build configuration.
#[derive(Clone, Copy, Debug, PartialEq, Eq, Structural)]
pub enum ReadyAction {
    /// Debug build: the worker is started independently by the developer, so
    /// the handler performs no filesystem or process operation and registers
    /// no supervisor.
    Skip,
    /// Release build: resolve, plan, build the environment, and start.
    Launch,
}

/// Decides the ready handler's action from the build configuration alone.
pub fn ready_action(debug_build: bool) -> (r: ReadyAction)
    ensures
        r == (if debug_build {
            ReadyAction::Skip
        } else {
            ReadyAction::Launch
        }),
{
    if debug_build {
        ReadyAction::Skip
    } else {
        ReadyAction::Launch
    }
}

/// Everything that can go wrong on the ready path, caught at the bridge
/// boundary, reported once, and never retried within the session.
pub enum StartupError {
    /// The host could not supply a required base directory.
    Resolution,
    /// Creating a writable data directory failed.
    Io,
    /// The entry artifact was absent at the location carried here.
    EntryMissing { expected: String },
    /// The OS refused to create the worker process.
    Spawn,
}

impl StartupError {
    /// The expected entry-artifact location, where this error carries one.
    pub open spec fn expected_path(&self) -> Seq<char> {
        match self {
            StartupError::EntryMissing { expected } => expected@,
            _ => Seq::empty(),
        }
    }

    /// A planning failure folded into the bridge's taxonomy: the expected
    /// location travels along unchanged.
    pub fn from_launch(err: LaunchError) -> (r: Self)
        ensures
            r is EntryMissing,
            r.expected_path() == err.expected_path(),
    {
        match err {
            LaunchError::EntryMissing { expected } => StartupError::EntryMissing { expected },
        }
    }

    /// The line written to the diagnostic stream: enough context to identify
    /// the failing stage, and for a missing artifact the expected location.
    pub fn diagnostic(&self) -> (r: String)
        ensures
            self is Resolution ==> r@ == "failed to resolve a required base directory"@,
            self is Io ==> r@ == "failed to create a required data directory"@,
            self is EntryMissing ==> r@ == "API entry not found at "@ + self.expected_path(),
            self is Spawn ==> r@ == "failed to spawn the worker process"@,
    {
        match self {
            StartupError::Resolution => "failed to resolve a required base directory".to_owned(),
            StartupError::Io => "failed to create a required data directory".to_owned(),
            StartupError::EntryMissing { expected } => {
                let mut r = "API entry not found at ".to_owned();
                r.append(expected.as_str());
                r
            },
            StartupError::Spawn => "failed to spawn the worker process".to_owned(),
        }
    }
}

/// Composes launch planning and environment construction over resolved
/// paths. `entry_exists` and `bundled_exists` are the caller's probe results
/// for the two locations the planner names. Succeeds exactly when the entry
/// artifact exists; a failure carries the location where it was expected.
pub fn prepare_launch(paths: &ResolvedPaths, entry_exists: bool, bundled_exists: bool) -> (r:
    Result<(LaunchPlan, WorkerEnvironment), LaunchError>)
    ensures
        r is Ok <==> entry_exists,
        r is Ok ==> {
            &&& r->Ok_0.0.entry_artifact@ == entry_artifact_spec(paths.resource_dir@)
            &&& r->Ok_0.0.working_dir@ == working_dir_spec(paths.resource_dir@)
            &&& (bundled_exists ==> r->Ok_0.0.executable@ == bundled_interpreter_spec(
                paths.resource_dir@,
            ))
            &&& (!bundled_exists ==> r->Ok_0.0.executable@ == "node"@)
            &&& r->Ok_0.1.node_path@ == joined(paths.resource_dir@, "node_modules"@)
            &&& r->Ok_0.1.database_url@ == database_url_spec(paths.database_file@)
            &&& r->Ok_0.1.storage_path@ == paths.storage_dir@
            &&& r->Ok_0.1.memory_path@ == paths.memory_dir@
        },
        r is Err ==> r->Err_0.expected_path() == entry_artifact_spec(paths.resource_dir@),
{
    let launch_plan = match plan(paths, entry_exists, bundled_exists) {
        Ok(p) => p,
        Err(e) => {
            return Err(e);
        },
    };
    let env = build_environment(paths);
    Ok((launch_plan, env))
}

} // verus!
