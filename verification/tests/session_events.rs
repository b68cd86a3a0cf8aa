//! What a session publishes after reading its output and after its shell ends.

use termul::events::{after_read, after_wait, ReadOutcome};
use termul::{ExitInfo, SessionEvent, SessionId};

#[test]
fn output_bytes_are_published_and_reading_goes_on() {
    let (event, keep_reading) = after_read(SessionId(1), ReadOutcome::Data(b"hello".to_vec()));
    assert!(keep_reading);
    match event {
        Some(SessionEvent::Output { session_id, data }) => {
            assert_eq!(session_id, SessionId(1));
            assert_eq!(data, b"hello");
        }
        other => panic!("unexpected event: {other:?}"),
    }
}

#[test]
fn end_of_output_stops_reading_quietly() {
    let (event, keep_reading) = after_read(SessionId(2), ReadOutcome::Data(Vec::new()));
    assert!(event.is_none());
    assert!(!keep_reading);
}

#[test]
fn interrupted_read_is_retried() {
    let (event, keep_reading) = after_read(SessionId(3), ReadOutcome::Interrupted);
    assert!(event.is_none());
    assert!(keep_reading);
}

#[test]
fn failed_read_is_published_and_stops_reading() {
    let (event, keep_reading) =
        after_read(SessionId(4), ReadOutcome::Failed("broken".to_string()));
    assert!(!keep_reading);
    match event {
        Some(SessionEvent::Error { session_id, message }) => {
            assert_eq!(session_id, SessionId(4));
            assert_eq!(message, "broken");
        }
        other => panic!("unexpected event: {other:?}"),
    }
}

#[test]
fn shell_end_is_published_as_exit_or_error() {
    match after_wait(SessionId(5), Ok(ExitInfo { code: Some(0), signal: None })) {
        SessionEvent::Exit { session_id, exit } => {
            assert_eq!(session_id, SessionId(5));
            assert_eq!(exit.code, Some(0));
            assert!(exit.signal.is_none());
        }
        other => panic!("unexpected event: {other:?}"),
    }
    match after_wait(SessionId(6), Err("wait failed".to_string())) {
        SessionEvent::Error { session_id, message } => {
            assert_eq!(session_id, SessionId(6));
            assert_eq!(message, "wait failed");
        }
        other => panic!("unexpected event: {other:?}"),
    }
}
