//! Session and configuration core of a tabbed terminal.
//!
//! The library keeps the tab bookkeeping (ids, tab order, the active tab),
//! the portable configuration schema and its defaults, and the text that the
//! terminal shows for its sessions and errors. Spawning shells, reading and
//! writing files and talking to the UI stay outside this crate.

pub mod text;
pub mod platform;
pub mod tabs;
pub mod session;
pub mod events;
pub mod config;
pub mod paths;
pub mod output_data;

pub use session::{
    ExitInfo, SessionConfig, SessionError, SessionEvent, SessionEventSink, SessionHandleFactory,
    SessionHandleTrait, SessionId, SessionManager, SessionSnapshot, SessionState,
};
