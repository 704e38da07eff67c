use worker_supervisor::bridge::{prepare_launch, ready_action, ReadyAction, StartupError};
use worker_supervisor::environment::{build_environment, derive_database_url};
use worker_supervisor::paths::{join_path, resolve_paths};
use worker_supervisor::planner::{
    bundled_interpreter_path, entry_artifact_path, plan, LaunchError,
};
use worker_supervisor::supervisor::{SharedSupervisor, Supervisor};

#[test]
fn join_path_inserts_separator() {
    assert_eq!(join_path("/base", "leaf"), "/base/leaf");
}

#[test]
fn resolve_paths_derives_fixed_children() {
    let p = resolve_paths(String::from("/opt/app"), String::from("/home/u/data"));
    assert_eq!(p.resource_dir, "/opt/app");
    assert_eq!(p.app_data_dir, "/home/u/data");
    assert_eq!(p.storage_dir, "/home/u/data/storage");
    assert_eq!(p.memory_dir, "/home/u/data/memory");
    assert_eq!(p.database_file, "/home/u/data/pro-chat.db");
}

#[test]
fn creation_dirs_lists_writable_dirs_and_is_repeatable() {
    let p = resolve_paths(String::from("/opt/app"), String::from("/d"));
    let first = p.creation_dirs();
    assert_eq!(first, vec!["/d", "/d/storage", "/d/memory"]);
    let second = p.creation_dirs();
    assert_eq!(first, second);
}

#[test]
fn creation_dirs_never_includes_resource_dir() {
    let p = resolve_paths(String::from("/opt/app"), String::from("/d"));
    assert!(!p.creation_dirs().contains(&String::from("/opt/app")));
}

#[test]
fn plan_fails_exactly_when_entry_is_missing() {
    let p = resolve_paths(String::from("/res"), String::from("/d"));
    let missing = plan(&p, false, true);
    match missing {
        Err(LaunchError::EntryMissing { expected }) => {
            assert_eq!(expected, "/res/api/dist/index.js");
        }
        Ok(_) => panic!("planning must fail without the entry artifact"),
    }
    let present = plan(&p, true, true);
    assert!(present.is_ok());
}

#[test]
fn plan_sets_entry_and_working_dir() {
    let p = resolve_paths(String::from("/res"), String::from("/d"));
    let lp = plan(&p, true, false).unwrap();
    assert_eq!(lp.entry_artifact, "/res/api/dist/index.js");
    assert_eq!(lp.working_dir, "/res/api");
}

#[test]
fn plan_prefers_bundled_interpreter() {
    let p = resolve_paths(String::from("/res"), String::from("/d"));
    let lp = plan(&p, true, true).unwrap();
    assert_eq!(lp.executable, "/res/bin/node");
}

#[test]
fn plan_falls_back_to_bare_name() {
    let p = resolve_paths(String::from("/res"), String::from("/d"));
    let lp = plan(&p, true, false).unwrap();
    assert_eq!(lp.executable, "node");
}

#[test]
fn probe_locations_match_plan() {
    let p = resolve_paths(String::from("/res"), String::from("/d"));
    assert_eq!(entry_artifact_path(&p), "/res/api/dist/index.js");
    assert_eq!(bundled_interpreter_path(&p), "/res/bin/node");
}

#[test]
fn launch_error_message_names_expected_location() {
    let e = LaunchError::EntryMissing { expected: String::from("/res/api/dist/index.js") };
    assert_eq!(e.message(), "API entry not found at /res/api/dist/index.js");
}

#[test]
fn database_url_escapes_spaces() {
    assert_eq!(derive_database_url("/a b/c.db"), "file:///a%20b/c.db");
}

#[test]
fn database_url_escapes_every_space() {
    assert_eq!(derive_database_url("/a b/c d.db"), "file:///a%20b/c%20d.db");
}

#[test]
fn database_url_leaves_other_reserved_characters_alone() {
    assert_eq!(derive_database_url("/a%b/c#d.db"), "file:///a%b/c#d.db");
}

#[test]
fn database_url_of_empty_path_is_bare_scheme() {
    assert_eq!(derive_database_url(""), "file://");
}

#[test]
fn environment_holds_exactly_the_four_variables() {
    let p = resolve_paths(String::from("/res"), String::from("/d"));
    let env = build_environment(&p);
    assert_eq!(env.node_path, "/res/node_modules");
    assert_eq!(env.database_url, "file:///d/pro-chat.db");
    assert_eq!(env.storage_path, "/d/storage");
    assert_eq!(env.memory_path, "/d/memory");
    let entries = env.entries();
    assert_eq!(
        entries,
        vec![
            (String::from("NODE_PATH"), String::from("/res/node_modules")),
            (String::from("DATABASE_URL"), String::from("file:///d/pro-chat.db")),
            (String::from("STORAGE_PATH"), String::from("/d/storage")),
            (String::from("MEMORY_PATH"), String::from("/d/memory")),
        ]
    );
}

#[test]
fn stop_before_start_is_noop() {
    let mut s: Supervisor<u64> = Supervisor::new();
    assert!(!s.is_running());
    assert_eq!(s.stop(), None);
    assert!(!s.is_running());
}

#[test]
fn start_then_stop_surrenders_handle_once() {
    let mut s: Supervisor<u64> = Supervisor::new();
    assert_eq!(s.start(7), None);
    assert!(s.is_running());
    assert_eq!(s.stop(), Some(7));
    assert!(!s.is_running());
    assert_eq!(s.stop(), None);
}

#[test]
fn second_start_hands_back_displaced_handle() {
    let mut s: Supervisor<u64> = Supervisor::new();
    assert_eq!(s.start(1), None);
    assert_eq!(s.start(2), Some(1));
    assert_eq!(s.stop(), Some(2));
}

#[test]
fn shared_supervisor_stop_before_start_is_noop() {
    let s: SharedSupervisor<u64> = SharedSupervisor::new();
    assert!(!s.is_running());
    assert_eq!(s.stop(), None);
}

#[test]
fn shared_supervisor_surrenders_handle_once() {
    let s: SharedSupervisor<u64> = SharedSupervisor::new();
    assert_eq!(s.start(9), None);
    assert!(s.is_running());
    assert_eq!(s.stop(), Some(9));
    assert!(!s.is_running());
    assert_eq!(s.stop(), None);
}

#[test]
fn shared_supervisor_hands_back_displaced_handle() {
    let s: SharedSupervisor<u64> = SharedSupervisor::new();
    assert_eq!(s.start(1), None);
    assert_eq!(s.start(2), Some(1));
    assert_eq!(s.stop(), Some(2));
}

#[test]
fn ready_action_skips_in_debug_builds() {
    assert_eq!(ready_action(true), ReadyAction::Skip);
    assert_eq!(ready_action(false), ReadyAction::Launch);
}

#[test]
fn debug_ready_scenario_touches_nothing() {
    // Debug build: the handler decides to skip, no supervisor is registered,
    // and the later close-requested handler finds nothing to stop.
    let action = ready_action(true);
    assert_eq!(action, ReadyAction::Skip);
    let mut never_registered: Supervisor<u64> = Supervisor::new();
    assert_eq!(never_registered.stop(), None);
}

#[test]
fn release_ready_scenario_with_missing_entry_reports_expected_path() {
    let action = ready_action(false);
    assert_eq!(action, ReadyAction::Launch);
    let p = resolve_paths(String::from("/res"), String::from("/d"));
    let err = match prepare_launch(&p, false, true) {
        Err(e) => e,
        Ok(_) => panic!("preparation must fail without the entry artifact"),
    };
    let reported = StartupError::from_launch(err);
    assert!(matches!(reported, StartupError::EntryMissing { .. }));
    let line = reported.diagnostic();
    assert_eq!(line, "API entry not found at /res/api/dist/index.js");
    assert!(line.contains("/res/api/dist/index.js"));
}

#[test]
fn prepare_launch_yields_plan_and_environment_together() {
    let p = resolve_paths(String::from("/res"), String::from("/my data"));
    let (lp, env) = prepare_launch(&p, true, true).unwrap();
    assert_eq!(lp.executable, "/res/bin/node");
    assert_eq!(lp.entry_artifact, "/res/api/dist/index.js");
    assert_eq!(lp.working_dir, "/res/api");
    assert_eq!(env.database_url, "file:///my%20data/pro-chat.db");
    assert_eq!(env.storage_path, "/my data/storage");
}

#[test]
fn startup_error_diagnostics_name_the_failing_stage() {
    assert_eq!(
        StartupError::Resolution.diagnostic(),
        "failed to resolve a required base directory"
    );
    assert_eq!(StartupError::Io.diagnostic(), "failed to create a required data directory");
    assert_eq!(StartupError::Spawn.diagnostic(), "failed to spawn the worker process");
}
