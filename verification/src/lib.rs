//! Lifecycle supervisor for a single long-running backend worker process.
//!
//! On application startup the host shell resolves two base directories,
//! derives the filesystem locations the worker needs, plans which executable
//! to launch, builds the worker's environment, and records the spawned
//! process handle in a single-slot supervisor. On shutdown the handle is
//! taken from the slot exactly once and the process is terminated.
//!
//! This crate holds the verified core: path derivation, launch planning,
//! environment construction, the supervisor's slot discipline, and the
//! lifecycle bridge's decisions. The host GUI framework, filesystem probes,
//! and process spawning live outside it and hand in plain values.

pub mod paths;
pub mod planner;
pub mod environment;
pub mod supervisor;
pub mod bridge;
