//! What a session publishes on the event channel while its shell runs: the
//! decisions taken after each read of the shell's output and after waiting
//! for the shell to end.

use vstd::prelude::*;

use crate::session::{ExitInfo, SessionEvent, SessionId};

verus! {

/// What one read of a session's output produced.
pub enum ReadOutcome {
    /// The bytes read; none at all means the output has ended.
    Data(Vec<u8>),
    /// The read was interrupted before anything was read.
    Interrupted,
    /// The read failed; the reason.
    Failed(String),
}

/// What follows one read: the event to publish, if any, and whether to read
/// again. Bytes are published as output and reading goes on; the end of the
/// output stops reading quietly; an interrupted read is retried; a failure is
/// published as an error and stops reading.
pub fn after_read(session_id: SessionId, outcome: ReadOutcome) -> (step: (
    Option<SessionEvent>,
    bool,
))
    ensures
        match outcome {
            ReadOutcome::Data(bytes) => if bytes@.len() == 0 {
                step.0 is None && !step.1
            } else {
                step.0 == Some(SessionEvent::Output { session_id, data: bytes }) && step.1
            },
            ReadOutcome::Interrupted => step.0 is None && step.1,
            ReadOutcome::Failed(message) => step.0 == Some(
                SessionEvent::Error { session_id, message },
            ) && !step.1,
        },
{
    match outcome {
        ReadOutcome::Data(bytes) => {
            if bytes.len() == 0 {
                (None, false)
            } else {
                (Some(SessionEvent::Output { session_id, data: bytes }), true)
            }
        },
        ReadOutcome::Interrupted => (None, true),
        ReadOutcome::Failed(message) => (Some(SessionEvent::Error { session_id, message }), false),
    }
}

/// The event published once waiting for the shell has ended: its exit, or
/// why waiting failed.
pub fn after_wait(session_id: SessionId, outcome: Result<ExitInfo, String>) -> (event:
    SessionEvent)
    ensures
        match outcome {
            Ok(exit) => event == SessionEvent::Exit { session_id, exit },
            Err(message) => event == SessionEvent::Error { session_id, message },
        },
{
    match outcome {
        Ok(exit) => SessionEvent::Exit { session_id, exit },
        Err(message) => SessionEvent::Error { session_id, message },
    }
}

} // verus!
