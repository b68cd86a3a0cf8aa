//! The state a session keeps about its shell, and the snapshots made from it.

use std::path::PathBuf;

use termul::{ExitInfo, SessionId, SessionState};

#[test]
fn started_session_runs_with_default_title() {
    let state = SessionState::started(
        SessionId(5),
        None,
        "bash".to_string(),
        vec!["--login".to_string()],
        Some(PathBuf::from("/work")),
        100,
        40,
        Some(321),
    );
    assert_eq!(state.title, "Tab 5");
    assert_eq!(state.shell, "bash");
    assert_eq!(state.args, vec!["--login"]);
    assert_eq!(state.cwd, Some(PathBuf::from("/work")));
    assert_eq!((state.cols, state.rows), (100, 40));
    assert!(state.running);
    assert_eq!(state.process_id, Some(321));
    assert!(state.exit.is_none());
}

#[test]
fn started_session_keeps_given_title() {
    let state = SessionState::started(
        SessionId(5),
        Some("work".to_string()),
        "zsh".to_string(),
        Vec::new(),
        None,
        80,
        24,
        None,
    );
    assert_eq!(state.title, "work");
}

#[test]
fn unavailable_state_uses_defaults() {
    let state = SessionState::unavailable(SessionId(3), "/bin/sh".to_string());
    assert_eq!(state.title, "Tab 3");
    assert_eq!(state.shell, "/bin/sh");
    assert!(state.args.is_empty());
    assert_eq!((state.cols, state.rows), (80, 24));
    assert!(!state.running);
    assert!(state.process_id.is_none());
}

#[test]
fn exit_and_resize_update_the_state() {
    let mut state = SessionState::started(
        SessionId(1),
        None,
        "sh".to_string(),
        Vec::new(),
        None,
        80,
        24,
        Some(7),
    );
    state.set_size(132, 43);
    assert_eq!((state.cols, state.rows), (132, 43));
    state.mark_exited(ExitInfo { code: Some(1), signal: Some("SIGTERM".to_string()) });
    assert!(!state.running);
    let exit = state.exit.clone().expect("exit recorded");
    assert_eq!(exit.code, Some(1));
    assert_eq!(exit.signal.as_deref(), Some("SIGTERM"));
    assert_eq!(state.process_id, Some(7));

    let snapshot = state.into_snapshot(SessionId(1), true);
    assert_eq!(snapshot.id, SessionId(1));
    assert!(snapshot.active);
    assert!(!snapshot.running);
    assert_eq!(snapshot.title, "Tab 1");
    assert_eq!((snapshot.cols, snapshot.rows), (132, 43));
}
