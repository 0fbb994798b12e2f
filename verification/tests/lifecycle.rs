use sidecar_supervisor::errors::SupervisorError;
use sidecar_supervisor::events::{run_observation, ChildEvent, LogLevel};
use sidecar_supervisor::paths::{derive_connection_string, StorageLocation};
use sidecar_supervisor::supervisor::{
    plan_start, termination_outcome, ProcessHandle, StopAction, SupervisorState,
};

#[test]
fn stop_before_start_is_noop() {
    let mut state = SupervisorState::new();
    assert!(!state.holds_handle());
    let action = state.stop();
    assert_eq!(action, StopAction::AlreadyStopped);
    assert!(!state.holds_handle());
}

#[test]
fn stop_twice_is_noop() {
    let mut state = SupervisorState::new();
    state
        .record_spawn(Some(ProcessHandle { pid: 11 }))
        .unwrap();
    let first = state.stop();
    assert_eq!(first, StopAction::Terminate(ProcessHandle { pid: 11 }));
    let second = state.stop();
    assert_eq!(second, StopAction::AlreadyStopped);
    assert!(!state.holds_handle());
}

#[test]
fn successful_start_holds_exactly_one_handle() {
    let mut state = SupervisorState::new();
    let outcome = state.record_spawn(Some(ProcessHandle { pid: 42 }));
    assert!(outcome.is_ok());
    assert!(state.holds_handle());
    assert_eq!(state.handle, Some(ProcessHandle { pid: 42 }));
    let action = state.stop();
    assert_eq!(action, StopAction::Terminate(ProcessHandle { pid: 42 }));
    assert_eq!(state.handle, None);
}

#[test]
fn failed_start_leaves_state_empty_and_stops_nothing() {
    let mut state = SupervisorState::new();
    let outcome = state.record_spawn(None);
    assert_eq!(outcome, Err(SupervisorError::Spawn));
    assert!(!state.holds_handle());
    let action = state.stop();
    assert_eq!(action, StopAction::AlreadyStopped);
}

#[test]
fn start_observe_then_stop_scenario() {
    let location = StorageLocation::from_path(String::from("/tmp/x"));
    let conn = derive_connection_string(&location);
    let request = plan_start(&conn);
    assert_eq!(request.program.as_str(), "desktop-backend");
    assert_eq!(request.env[0].0.as_str(), "DATABASE_URL");
    assert_eq!(request.env[0].1.as_str(), "file:/tmp/x/itcert.db");
    assert_eq!(request.env[1], (String::from("PORT"), String::from("3002")));

    let mut state = SupervisorState::new();
    state
        .record_spawn(Some(ProcessHandle { pid: 314 }))
        .unwrap();
    assert!(state.holds_handle());

    let before_stop = vec![ChildEvent::StdoutLine(b"listening on 3002".to_vec())];
    let (log, terminal_seen) = run_observation(&before_stop);
    assert_eq!(log, vec![LogLevel::Info]);
    assert!(!terminal_seen);
    assert!(state.holds_handle());

    let action = state.stop();
    assert_eq!(action, StopAction::Terminate(ProcessHandle { pid: 314 }));
    assert!(termination_outcome(true).is_ok());

    let after_stop = vec![ChildEvent::Terminated {
        code: Some(0),
        signal: None,
    }];
    let (final_log, exited) = run_observation(&after_stop);
    assert_eq!(final_log, vec![LogLevel::Info]);
    assert!(exited);
    assert!(!state.holds_handle());
}

#[test]
fn missing_spawn_target_scenario() {
    let location = StorageLocation::from_path(String::from("/home/user/.local/share/app"));
    let conn = derive_connection_string(&location);
    let request = plan_start(&conn);
    assert_eq!(request.program.as_str(), "desktop-backend");

    let mut state = SupervisorState::new();
    let outcome = state.record_spawn(None);
    assert_eq!(outcome, Err(SupervisorError::Spawn));
    assert!(!state.holds_handle());

    let still_running = state.stop();
    assert_eq!(still_running, StopAction::AlreadyStopped);
}

#[test]
fn termination_outcome_maps_signal_failures() {
    assert_eq!(termination_outcome(true), Ok(()));
    assert_eq!(
        termination_outcome(false),
        Err(SupervisorError::Termination)
    );
}

#[test]
fn plan_start_environment_is_exact() {
    let location = StorageLocation::from_path(String::from("/data"));
    let conn = derive_connection_string(&location);
    let request = plan_start(&conn);
    assert_eq!(request.env.len(), 3);
    assert_eq!(
        request.env[0],
        (
            String::from("DATABASE_URL"),
            String::from("file:/data/itcert.db")
        )
    );
    assert_eq!(request.env[1], (String::from("PORT"), String::from("3002")));
    assert_eq!(
        request.env[2],
        (
            String::from("JWT_SECRET"),
            String::from("desktop-app-secret-key-change-in-production")
        )
    );
    assert_ne!(request.env[0].0, request.env[1].0);
    assert_ne!(request.env[0].0, request.env[2].0);
    assert_ne!(request.env[1].0, request.env[2].0);
}
