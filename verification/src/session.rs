//! Tab sessions: their ids, configurations, snapshots, events and errors, and
//! the [`SessionManager`] that owns the tab order and the active tab.
//!
//! The manager never touches a shell itself: each session is a handle built
//! by an injected [`SessionHandleFactory`], so the bookkeeping can be used and
//! tested without spawning processes.

use std::collections::{BTreeMap, HashMap};
use std::path::PathBuf;
use std::sync::Arc;

use vstd::prelude::*;
use vstd::string::*;

use crate::tabs::{
    law_activated_wf, law_closed_wf, law_opened_wf, law_spawn_failed_wf, lemma_closed_order,
    lemma_index_of_unique, promoted_after_close, TabState,
};
use crate::text::{decimal, push_decimal};

verus! {

broadcast use vstd::std_specs::hash::group_hash_axioms;

/// The event channel on which session output, exits and errors are published.
pub const SESSION_EVENT_CHANNEL: &'static str = "termul:session-event";

/// The identifier of one tab session.
#[derive(Debug, Clone, Copy, PartialEq, Eq, Structural, Hash, PartialOrd, Ord)]
pub struct SessionId(pub u64);

/// The terminal width a session starts with unless told otherwise.
pub fn default_cols() -> (cols: u16)
    ensures
        cols == 80,
{
    80
}

/// The terminal height a session starts with unless told otherwise.
pub fn default_rows() -> (rows: u16)
    ensures
        rows == 24,
{
    24
}

/// The title of a tab that was given none: "Tab " followed by its id.
pub open spec fn default_title_text(session_id: SessionId) -> Seq<char> {
    "Tab "@ + decimal(session_id.0 as nat)
}

/// The title of a tab that was given none.
pub fn default_title(session_id: SessionId) -> (title: String)
    ensures
        title@ == default_title_text(session_id),
{
    let mut title = String::from_str("Tab ");
    push_decimal(&mut title, session_id.0);
    title
}

/// How to start the shell of a new tab.
#[derive(Debug, Clone)]
pub struct SessionConfig {
    pub title: Option<String>,
    pub shell: Option<String>,
    pub args: Vec<String>,
    pub cwd: Option<PathBuf>,
    pub cols: u16,
    pub rows: u16,
    pub env: BTreeMap<String, String>,
}

impl Default for SessionConfig {
    /// No title, shell, arguments, directory or environment, and an 80x24
    /// terminal.
    fn default() -> (config: Self)
        ensures
            config.title is None,
            config.shell is None,
            config.args@.len() == 0,
            config.cwd is None,
            config.cols == 80,
            config.rows == 24,
            config.env@ == Map::<String, String>::empty(),
    {
        SessionConfig {
            title: None,
            shell: None,
            args: Vec::new(),
            cwd: None,
            cols: default_cols(),
            rows: default_rows(),
            env: BTreeMap::new(),
        }
    }
}

/// How a shell process ended.
#[derive(Debug, Clone)]
pub struct ExitInfo {
    pub code: Option<u32>,
    pub signal: Option<String>,
}

/// What the UI shows of one tab.
#[derive(Debug, Clone)]
pub struct SessionSnapshot {
    pub id: SessionId,
    pub title: String,
    pub shell: String,
    pub args: Vec<String>,
    pub cwd: Option<PathBuf>,
    pub cols: u16,
    pub rows: u16,
    pub active: bool,
    pub running: bool,
    pub process_id: Option<u32>,
    pub exit: Option<ExitInfo>,
}

/// What a running (or finished) shell session knows about itself.
#[derive(Debug, Clone)]
pub struct SessionState {
    pub title: String,
    pub shell: String,
    pub args: Vec<String>,
    pub cwd: Option<PathBuf>,
    pub cols: u16,
    pub rows: u16,
    pub running: bool,
    pub process_id: Option<u32>,
    pub exit: Option<ExitInfo>,
}

impl SessionState {
    /// The state of a shell that was just started: it runs, has not exited,
    /// and is titled "Tab <id>" unless it was given a title.
    pub fn started(
        session_id: SessionId,
        title: Option<String>,
        shell: String,
        args: Vec<String>,
        cwd: Option<PathBuf>,
        cols: u16,
        rows: u16,
        process_id: Option<u32>,
    ) -> (state: Self)
        ensures
            match title {
                Some(given) => state.title == given,
                None => state.title@ == default_title_text(session_id),
            },
            state.shell == shell,
            state.args == args,
            state.cwd == cwd,
            state.cols == cols,
            state.rows == rows,
            state.running,
            state.process_id == process_id,
            state.exit is None,
    {
        let title = match title {
            Some(given) => given,
            None => default_title(session_id),
        };
        SessionState { title, shell, args, cwd, cols, rows, running: true, process_id, exit: None }
    }

    /// What is reported when the state of a session cannot be read: the
    /// default title and size, the given shell, and a session that is not
    /// running and has no process or exit status.
    pub fn unavailable(session_id: SessionId, shell: String) -> (state: Self)
        ensures
            state.title@ == default_title_text(session_id),
            state.shell == shell,
            state.args@.len() == 0,
            state.cwd is None,
            state.cols == 80,
            state.rows == 24,
            !state.running,
            state.process_id is None,
            state.exit is None,
    {
        SessionState {
            title: default_title(session_id),
            shell,
            args: Vec::new(),
            cwd: None,
            cols: default_cols(),
            rows: default_rows(),
            running: false,
            process_id: None,
            exit: None,
        }
    }

    /// The shell exited as `exit` says.
    pub fn mark_exited(&mut self, exit: ExitInfo)
        ensures
            final(self).running == false,
            final(self).exit == Some(exit),
            final(self).title == old(self).title,
            final(self).shell == old(self).shell,
            final(self).args == old(self).args,
            final(self).cwd == old(self).cwd,
            final(self).cols == old(self).cols,
            final(self).rows == old(self).rows,
            final(self).process_id == old(self).process_id,
    {
        self.running = false;
        self.exit = Some(exit);
    }

    /// The terminal was resized to `cols` x `rows`.
    pub fn set_size(&mut self, cols: u16, rows: u16)
        ensures
            *final(self) == (SessionState { cols, rows, ..*old(self) }),
    {
        self.cols = cols;
        self.rows = rows;
    }

    /// The snapshot of this session under `session_id`, with the given active
    /// flag: every other field is the state's.
    pub fn into_snapshot(self, session_id: SessionId, active: bool) -> (snapshot: SessionSnapshot)
        ensures
            snapshot == (SessionSnapshot {
                id: session_id,
                title: self.title,
                shell: self.shell,
                args: self.args,
                cwd: self.cwd,
                cols: self.cols,
                rows: self.rows,
                active,
                running: self.running,
                process_id: self.process_id,
                exit: self.exit,
            }),
    {
        SessionSnapshot {
            id: session_id,
            title: self.title,
            shell: self.shell,
            args: self.args,
            cwd: self.cwd,
            cols: self.cols,
            rows: self.rows,
            active,
            running: self.running,
            process_id: self.process_id,
            exit: self.exit,
        }
    }
}

/// A background notification about one session.
#[derive(Debug, Clone)]
pub enum SessionEvent {
    Output { session_id: SessionId, data: Vec<u8> },
    Exit { session_id: SessionId, exit: ExitInfo },
    Error { session_id: SessionId, message: String },
}

/// Receives the events of all sessions.
pub trait SessionEventSink: Send + Sync {
    fn emit(&self, event: SessionEvent);
}

/// One running (or finished) session, as the manager sees it.
pub trait SessionHandleTrait: Send {
    /// Whether `snapshot` is a report this handle may give of its session
    /// under `session_id` with the active flag `active`. A handle may narrow
    /// the reports it allows; one that does not allows every report.
    open spec fn snapshot_allows(
        &self,
        session_id: SessionId,
        active: bool,
        snapshot: SessionSnapshot,
    ) -> bool {
        true
    }

    /// The session's current state, reported under `session_id` and with the
    /// given active flag.
    fn snapshot(&self, session_id: SessionId, active: bool) -> (snapshot: SessionSnapshot)
        ensures
            snapshot.id == session_id,
            snapshot.active == active,
            self.snapshot_allows(session_id, active, snapshot),
    ;

    /// Whether `result` is an outcome this handle may report for writing
    /// `input` to its shell. A handle may narrow the outcomes it allows; one
    /// that does not allows every outcome, and a live shell may allow
    /// several.
    open spec fn write_allows(&self, input: Seq<u8>, result: Result<(), SessionError>) -> bool {
        true
    }

    /// Whether `result` is an outcome this handle may report for resizing its
    /// terminal to `cols` x `rows`.
    open spec fn resize_allows(&self, cols: u16, rows: u16, result: Result<(), SessionError>) -> bool {
        true
    }

    /// Whether `result` is an outcome this handle may report for a request to
    /// stop its shell.
    open spec fn close_allows(&self, result: Result<(), SessionError>) -> bool {
        true
    }

    /// Whether this handle may report `running` when asked whether its shell
    /// still runs.
    open spec fn running_allows(&self, running: bool) -> bool {
        true
    }

    /// Sends `input` to the shell.
    fn write(&self, input: &[u8]) -> (result: Result<(), SessionError>)
        ensures
            self.write_allows(input@, result),
    ;

    /// Resizes the terminal to `cols` x `rows`.
    fn resize(&self, cols: u16, rows: u16) -> (result: Result<(), SessionError>)
        ensures
            self.resize_allows(cols, rows, result),
    ;

    /// Asks the shell to stop.
    fn request_close(&self) -> (result: Result<(), SessionError>)
        ensures
            self.close_allows(result),
    ;

    /// Whether the shell still runs.
    fn is_running(&self) -> (running: bool)
        ensures
            self.running_allows(running),
    ;
}

/// A boxed handle behaves as the handle inside it: it allows exactly the
/// outcomes that the inner handle allows, and reports what the inner handle
/// reports.
impl SessionHandleTrait for Box<dyn SessionHandleTrait> {
    open spec fn snapshot_allows(
        &self,
        session_id: SessionId,
        active: bool,
        snapshot: SessionSnapshot,
    ) -> bool {
        (**self).snapshot_allows(session_id, active, snapshot)
    }

    open spec fn write_allows(&self, input: Seq<u8>, result: Result<(), SessionError>) -> bool {
        (**self).write_allows(input, result)
    }

    open spec fn resize_allows(&self, cols: u16, rows: u16, result: Result<(), SessionError>) -> bool {
        (**self).resize_allows(cols, rows, result)
    }

    open spec fn close_allows(&self, result: Result<(), SessionError>) -> bool {
        (**self).close_allows(result)
    }

    open spec fn running_allows(&self, running: bool) -> bool {
        (**self).running_allows(running)
    }

    fn snapshot(&self, session_id: SessionId, active: bool) -> (snapshot: SessionSnapshot) {
        (**self).snapshot(session_id, active)
    }

    fn write(&self, input: &[u8]) -> Result<(), SessionError> {
        (**self).write(input)
    }

    fn resize(&self, cols: u16, rows: u16) -> Result<(), SessionError> {
        (**self).resize(cols, rows)
    }

    fn request_close(&self) -> Result<(), SessionError> {
        (**self).request_close()
    }

    fn is_running(&self) -> bool {
        (**self).is_running()
    }
}

/// Builds the handle of a new session; the sink receives the session's
/// events.
pub trait SessionHandleFactory<H = Box<dyn SessionHandleTrait>>: Send + Sync {
    /// Whether `result` is an outcome this factory may give for starting the
    /// session `session_id` from `config`, with `sink` for its events. A
    /// factory may narrow the outcomes it allows; one that does not allows
    /// every outcome.
    open spec fn spawn_allows(
        &self,
        session_id: SessionId,
        config: SessionConfig,
        sink: &Arc<dyn SessionEventSink>,
        result: Result<H, SessionError>,
    ) -> bool {
        true
    }

    /// Starts the session `session_id` from `config`.
    fn spawn(
        &self,
        session_id: SessionId,
        config: SessionConfig,
        sink: &Arc<dyn SessionEventSink>,
    ) -> (result: Result<H, SessionError>)
        ensures
            self.spawn_allows(session_id, config, sink, result),
    ;
}

/// A boxed factory behaves as the factory inside it: it allows exactly the
/// outcomes that the inner factory allows, and starts sessions as it does.
impl<H> SessionHandleFactory<H> for Box<dyn SessionHandleFactory<H>> {
    open spec fn spawn_allows(
        &self,
        session_id: SessionId,
        config: SessionConfig,
        sink: &Arc<dyn SessionEventSink>,
        result: Result<H, SessionError>,
    ) -> bool {
        (**self).spawn_allows(session_id, config, sink, result)
    }

    fn spawn(
        &self,
        session_id: SessionId,
        config: SessionConfig,
        sink: &Arc<dyn SessionEventSink>,
    ) -> (result: Result<H, SessionError>) {
        (**self).spawn(session_id, config, sink)
    }
}

/// Why a session operation failed.
#[derive(Debug)]
pub enum SessionError {
    NotFound(SessionId),
    Pty(String),
    Io(std::io::Error),
    Poisoned,
    Factory(String),
}

impl From<std::io::Error> for SessionError {
    fn from(err: std::io::Error) -> (converted: SessionError) {
        SessionError::Io(err)
    }
}

impl vstd::std_specs::convert::FromSpecImpl<std::io::Error> for SessionError {
    open spec fn obeys_from_spec() -> bool {
        true
    }

    open spec fn from_spec(v: std::io::Error) -> SessionError {
        SessionError::Io(v)
    }
}

impl SessionError {
    /// The message shown for this error.
    pub fn message(&self) -> (text: String)
        ensures
            match self {
                SessionError::NotFound(id) => text@ == "session SessionId("@ + decimal(id.0 as nat)
                    + ") not found"@,
                SessionError::Pty(detail) => text@ == "pty error: "@ + detail@,
                SessionError::Io(err) => exists|detail: String|
                    #[trigger] vstd::string::to_string_from_display_ensures::<std::io::Error>(
                        err,
                        detail,
                    ) && text@ == "io error: "@ + detail@,
                SessionError::Poisoned => text@ == "session state lock poisoned"@,
                SessionError::Factory(detail) => text@ == "factory error: "@ + detail@,
            },
    {
        match self {
            SessionError::NotFound(id) => {
                let mut text = String::from_str("session SessionId(");
                push_decimal(&mut text, id.0);
                text.append(") not found");
                text
            },
            SessionError::Pty(detail) => {
                let mut text = String::from_str("pty error: ");
                text.append(detail.as_str());
                text
            },
            SessionError::Io(err) => {
                let detail = err.to_string();
                let mut text = String::from_str("io error: ");
                proof {
                    reveal_strlit("io error: ");
                }
                text.append(detail.as_str());
                assert(vstd::string::to_string_from_display_ensures::<std::io::Error>(err, detail));
                text
            },
            SessionError::Poisoned => String::from_str("session state lock poisoned"),
            SessionError::Factory(detail) => {
                let mut text = String::from_str("factory error: ");
                text.append(detail.as_str());
                text
            },
        }
    }
}

/// Owns the sessions of all tabs, their order and the active tab.
#[verifier::reject_recursive_types(H)]
#[verifier::reject_recursive_types(F)]
pub struct SessionManager<
    H: SessionHandleTrait = Box<dyn SessionHandleTrait>,
    F: SessionHandleFactory<H> = Box<dyn SessionHandleFactory<H>>,
> {
    next_id: u64,
    active: Option<SessionId>,
    order: Vec<SessionId>,
    sessions: HashMap<u64, H>,
    sink: Shared<Arc<dyn SessionEventSink>>,
    factory: F,
}

/// Holds the event sink that every session receives.
struct Shared<T> {
    value: T,
}

impl<H: SessionHandleTrait, F: SessionHandleFactory<H>> View for SessionManager<H, F> {
    type V = TabState;

    closed spec fn view(&self) -> TabState {
        TabState { next_id: self.next_id as nat, active: self.active, order: self.order@ }
    }
}

impl<H: SessionHandleTrait, F: SessionHandleFactory<H>> SessionManager<H, F> {
    /// The handle of every open tab, by id.
    pub closed spec fn handles(&self) -> Map<u64, H> {
        self.sessions@
    }

    /// The factory that builds the sessions of new tabs.
    pub closed spec fn spawner(&self) -> F {
        self.factory
    }

    /// The sink handed to every new session.
    pub closed spec fn event_sink(&self) -> &Arc<dyn SessionEventSink> {
        &self.sink.value
    }

    /// The tab state is well formed and the open tabs are exactly the tabs
    /// that have a handle.
    pub closed spec fn wf(&self) -> bool {
        &&& self@.wf()
        &&& forall|k: u64| #[trigger] self.sessions@.contains_key(k) <==> self@.has(SessionId(k))
    }

    /// A well-formed manager has a well-formed tab state, so every law of
    /// the tab state holds of it, and its open tabs are exactly the ids that
    /// have a handle.
    pub proof fn lemma_wf(&self)
        requires
            self.wf(),
        ensures
            self@.wf(),
            forall|k: u64| #[trigger] self.handles().contains_key(k) <==> self@.has(SessionId(k)),
    {
    }

    /// A manager without tabs that builds sessions with `factory` and hands
    /// them `sink` for their events.
    pub fn new(sink: Arc<dyn SessionEventSink>, factory: F) -> (manager:
        Self)
        ensures
            manager.wf(),
            manager@ == TabState::empty(),
            manager.spawner() == factory,
            manager.event_sink() == &sink,
    {
        let shared = Shared { value: sink };
        let manager = SessionManager {
            next_id: 1,
            active: None,
            order: Vec::new(),
            sessions: HashMap::new(),
            sink: shared,
            factory,
        };
        assert(manager@.order =~= Seq::<SessionId>::empty());
        manager
    }

    /// The active tab, if any.
    pub fn active_id(&self) -> (active: Option<SessionId>)
        ensures
            active == self@.active,
    {
        self.active
    }

    /// The open tabs, left to right.
    pub fn order(&self) -> (order: &Vec<SessionId>)
        ensures
            order@ == self@.order,
    {
        &self.order
    }

    /// The id that the next created session will receive.
    pub fn next_session_id(&self) -> (id: SessionId)
        ensures
            id == self@.fresh_id(),
    {
        SessionId(self.next_id)
    }

    /// How many sessions the manager holds.
    pub fn session_count(&self) -> (count: usize)
        requires
            self.wf(),
        ensures
            count == self@.order.len(),
    {
        proof {
            self.lemma_handles_match_order();
        }
        self.sessions.len()
    }

    proof fn lemma_handles_match_order(&self)
        requires
            self.wf(),
        ensures
            self.sessions@.dom() == self@.order.map_values(|id: SessionId| id.0).to_set(),
            self.sessions@.dom().len() == self@.order.len(),
            self.sessions@.dom().finite(),
    {
        let ids = self@.order.map_values(|id: SessionId| id.0);
        assert forall|k: u64| #[trigger] self.sessions@.dom().contains(k) <==> ids.to_set().contains(
            k,
        ) by {
            if self.sessions@.dom().contains(k) {
                assert(self@.has(SessionId(k)));
                let i = choose|i: int| 0 <= i < self@.order.len() && self@.order[i] == SessionId(k);
                assert(ids[i] == k);
            }
            if ids.to_set().contains(k) {
                let i = choose|i: int| 0 <= i < ids.len() && ids[i] == k;
                assert(self@.order[i] == SessionId(k));
                assert(self@.has(SessionId(k)));
            }
        }
        assert(self.sessions@.dom() =~= ids.to_set());
        assert(ids.no_duplicates()) by {
            assert forall|i: int, j: int|
                0 <= i < ids.len() && 0 <= j < ids.len() && i != j implies ids[i] != ids[j] by {
                assert(self@.order[i] != self@.order[j]);
            }
        }
        ids.unique_seq_to_set();
    }

    fn is_active(&self, session_id: SessionId) -> (active: bool)
        ensures
            active == (self@.active == Some(session_id)),
    {
        match self.active {
            Some(current) => current.0 == session_id.0,
            None => false,
        }
    }

    /// Starts a new tab with `config`; it goes to the right end of the tab
    /// order and becomes active. Its id is used up even when the factory
    /// fails, in which case the factory's error is returned.
    pub fn create_session(&mut self, config: SessionConfig) -> (result: Result<
        SessionSnapshot,
        SessionError,
    >)
        requires
            old(self).wf(),
            old(self)@.next_id < u64::MAX,
        ensures
            final(self).wf(),
            final(self).spawner() == old(self).spawner(),
            final(self).event_sink() == old(self).event_sink(),
            match result {
                Ok(snapshot) => {
                    let id = old(self)@.fresh_id();
                    let handle = final(self).handles()[id.0];
                    &&& final(self)@ == old(self)@.opened()
                    &&& final(self)@.active == Some(id)
                    &&& final(self)@.order == old(self)@.order.push(id)
                    &&& final(self)@.next_id == old(self)@.next_id + 1
                    &&& final(self).handles() == old(self).handles().insert(id.0, handle)
                    &&& old(self).spawner().spawn_allows(
                        id,
                        config,
                        old(self).event_sink(),
                        Ok(handle),
                    )
                    &&& snapshot.id == id
                    &&& snapshot.active
                    &&& handle.snapshot_allows(id, true, snapshot)
                },
                Err(err) => {
                    &&& final(self)@ == old(self)@.spawn_failed()
                    &&& final(self)@.active == old(self)@.active
                    &&& final(self)@.order == old(self)@.order
                    &&& final(self)@.next_id == old(self)@.next_id + 1
                    &&& final(self).handles() == old(self).handles()
                    &&& old(self).spawner().spawn_allows(
                        old(self)@.fresh_id(),
                        config,
                        old(self).event_sink(),
                        Err(err),
                    )
                },
            },
    {
        let session_id = SessionId(self.next_id);
        self.next_id = self.next_id + 1;
        proof {
            law_spawn_failed_wf(old(self)@);
            law_opened_wf(old(self)@);
            crate::tabs::law_fresh_id_unused(old(self)@);
            assert(self@ == old(self)@.spawn_failed());
        }
        let spawned = self.factory.spawn(session_id, config, &self.sink.value);
        let handle = match spawned {
            Ok(handle) => handle,
            Err(err) => return Err(err),
        };
        self.sessions.insert(session_id.0, handle);
        self.order.push(session_id);
        self.active = Some(session_id);
        proof {
            assert(self@ == old(self)@.opened());
            assert(!old(self).sessions@.contains_key(session_id.0));
            assert(self.sessions@ =~= old(self).sessions@.insert(session_id.0, self.sessions@[session_id.0]));
            assert forall|k: u64| #[trigger] self.sessions@.contains_key(k) <==> self@.has(
                SessionId(k),
            ) by {
                if k == session_id.0 {
                    assert(self@.order[self@.order.len() - 1] == session_id);
                } else {
                    if self@.has(SessionId(k)) {
                        let i = choose|i: int|
                            0 <= i < self@.order.len() && self@.order[i] == SessionId(k);
                        assert(i < old(self)@.order.len());
                        assert(old(self)@.order[i] == SessionId(k));
                    }
                    if old(self)@.has(SessionId(k)) {
                        let i = choose|i: int|
                            0 <= i < old(self)@.order.len() && old(self)@.order[i] == SessionId(k);
                        assert(self@.order[i] == SessionId(k));
                    }
                }
            }
        }
        self.snapshot_for(session_id, true)
    }

    /// A snapshot of every tab, in tab order, each flagged active exactly
    /// when it is the active tab.
    pub fn list_sessions(&self) -> (result: Result<Vec<SessionSnapshot>, SessionError>)
        requires
            self.wf(),
        ensures
            result matches Ok(snapshots) && snapshots@.len() == self@.order.len() && forall|i: int|
                0 <= i < snapshots@.len() ==> (#[trigger] snapshots@[i]).id == self@.order[i]
                    && snapshots@[i].active == (self@.active == Some(self@.order[i]))
                    && self.handles()[self@.order[i].0].snapshot_allows(
                    self@.order[i],
                    snapshots@[i].active,
                    snapshots@[i],
                ),
    {
        let mut sessions: Vec<SessionSnapshot> = Vec::with_capacity(self.order.len());
        let mut index: usize = 0;
        while index < self.order.len()
            invariant
                self.wf(),
                index <= self@.order.len(),
                sessions@.len() == index,
                forall|i: int|
                    0 <= i < index ==> (#[trigger] sessions@[i]).id == self@.order[i]
                        && sessions@[i].active == (self@.active == Some(self@.order[i]))
                        && self.handles()[self@.order[i].0].snapshot_allows(
                        self@.order[i],
                        sessions@[i].active,
                        sessions@[i],
                    ),
            decreases self@.order.len() - index,
        {
            let session_id = self.order[index];
            proof {
                assert(self@.has(session_id));
                assert(self.sessions@.contains_key(session_id.0));
            }
            if let Some(handle) = self.sessions.get(&session_id.0) {
                let active = self.is_active(session_id);
                sessions.push(handle.snapshot(session_id, active));
            }
            index = index + 1;
        }
        Ok(sessions)
    }

    /// A snapshot of the active tab, or `None` when no tab is open.
    pub fn active_session(&self) -> (result: Result<Option<SessionSnapshot>, SessionError>)
        requires
            self.wf(),
        ensures
            match self@.active {
                None => result == Ok::<Option<SessionSnapshot>, SessionError>(None),
                Some(id) => (result matches Ok(Some(snapshot)) && snapshot.id == id
                    && snapshot.active && self.handles()[id.0].snapshot_allows(id, true, snapshot)),
            },
    {
        let session_id = match self.active {
            Some(session_id) => session_id,
            None => return Ok(None),
        };
        match self.snapshot_for(session_id, true) {
            Ok(snapshot) => Ok(Some(snapshot)),
            Err(err) => Err(err),
        }
    }

    /// Makes an open tab the active one; an unknown id is refused and
    /// changes nothing.
    pub fn set_active_session(&mut self, session_id: SessionId) -> (result: Result<
        SessionSnapshot,
        SessionError,
    >)
        requires
            old(self).wf(),
        ensures
            final(self).wf(),
            final(self).handles() == old(self).handles(),
            final(self).spawner() == old(self).spawner(),
            final(self).event_sink() == old(self).event_sink(),
            old(self)@.has(session_id) ==> {
                &&& (result matches Ok(snapshot) && snapshot.id == session_id && snapshot.active
                    && old(self).handles()[session_id.0].snapshot_allows(
                    session_id,
                    true,
                    snapshot,
                ))
                &&& final(self)@ == old(self)@.activated(session_id)
                &&& final(self)@.active == Some(session_id)
                &&& final(self)@.order == old(self)@.order
                &&& final(self)@.next_id == old(self)@.next_id
            },
            !old(self)@.has(session_id) ==> {
                &&& result == Err::<SessionSnapshot, SessionError>(
                    SessionError::NotFound(session_id),
                )
                &&& final(self)@ == old(self)@
            },
    {
        if !self.sessions.contains_key(&session_id.0) {
            return Err(SessionError::NotFound(session_id));
        }
        self.active = Some(session_id);
        proof {
            law_activated_wf(old(self)@, session_id);
        }
        self.snapshot_for(session_id, true)
    }

    /// Sends `input` to the shell of a tab. An unknown id is refused; for an
    /// open tab the result is what its handle reports. The tabs do not change.
    pub fn write_session(&mut self, session_id: SessionId, input: &[u8]) -> (result: Result<
        (),
        SessionError,
    >)
        requires
            old(self).wf(),
        ensures
            final(self).wf(),
            final(self)@ == old(self)@,
            final(self).handles() == old(self).handles(),
            final(self).spawner() == old(self).spawner(),
            final(self).event_sink() == old(self).event_sink(),
            !old(self)@.has(session_id) ==> result == Err::<(), SessionError>(
                SessionError::NotFound(session_id),
            ),
            old(self)@.has(session_id) ==> old(self).handles()[session_id.0].write_allows(
                input@,
                result,
            ),
    {
        let session = match self.sessions.get(&session_id.0) {
            Some(session) => session,
            None => return Err(SessionError::NotFound(session_id)),
        };
        session.write(input)
    }

    /// Resizes the terminal of a tab and reports its new snapshot, flagged
    /// active exactly when it is the active tab. An unknown id is refused; for
    /// an open tab a failure of its handle is passed on. The tabs do not
    /// change.
    pub fn resize_session(&mut self, session_id: SessionId, cols: u16, rows: u16) -> (result:
        Result<SessionSnapshot, SessionError>)
        requires
            old(self).wf(),
        ensures
            final(self).wf(),
            final(self)@ == old(self)@,
            final(self).handles() == old(self).handles(),
            !old(self)@.has(session_id) ==> result == Err::<SessionSnapshot, SessionError>(
                SessionError::NotFound(session_id),
            ),
            final(self).spawner() == old(self).spawner(),
            final(self).event_sink() == old(self).event_sink(),
            (result matches Ok(snapshot) ==> snapshot.id == session_id && snapshot.active == (
            old(self)@.active == Some(session_id))),
            old(self)@.has(session_id) ==> match result {
                Ok(snapshot) => {
                    &&& old(self).handles()[session_id.0].resize_allows(
                        cols,
                        rows,
                        Ok::<(), SessionError>(()),
                    )
                    &&& old(self).handles()[session_id.0].snapshot_allows(
                        session_id,
                        old(self)@.active == Some(session_id),
                        snapshot,
                    )
                },
                Err(err) => old(self).handles()[session_id.0].resize_allows(
                    cols,
                    rows,
                    Err::<(), SessionError>(err),
                ),
            },
    {
        let session = match self.sessions.get(&session_id.0) {
            Some(session) => session,
            None => return Err(SessionError::NotFound(session_id)),
        };
        match session.resize(cols, rows) {
            Ok(done) => {
                assert(done == ());
            },
            Err(err) => return Err(err),
        }
        let active = self.is_active(session_id);
        self.snapshot_for(session_id, active)
    }

    /// Closes a tab: a running shell is asked to stop first, and if that
    /// fails the error is returned and nothing changes. Otherwise the tab
    /// leaves the tab order and the active tab is promoted as
    /// [`promoted_after_close`] says. An unknown id is refused.
    pub fn close_session(&mut self, session_id: SessionId) -> (result: Result<(), SessionError>)
        requires
            old(self).wf(),
        ensures
            final(self).wf(),
            !old(self)@.has(session_id) ==> result == Err::<(), SessionError>(
                SessionError::NotFound(session_id),
            ),
            result is Ok ==> {
                &&& old(self)@.has(session_id)
                &&& final(self)@ == old(self)@.closed(session_id)
                &&& final(self).handles() == old(self).handles().remove(session_id.0)
            },
            result is Err ==> final(self)@ == old(self)@ && final(self).handles() == old(
                self,
            ).handles(),
            final(self).spawner() == old(self).spawner(),
            final(self).event_sink() == old(self).event_sink(),
            old(self)@.has(session_id) ==> match result {
                Ok(()) => old(self).handles()[session_id.0].running_allows(false) || (old(
                    self,
                ).handles()[session_id.0].running_allows(true) && old(self).handles()[session_id.0].close_allows(
                    Ok::<(), SessionError>(()),
                )),
                Err(err) => old(self).handles()[session_id.0].running_allows(true) && old(
                    self,
                ).handles()[session_id.0].close_allows(Err::<(), SessionError>(err)),
            },
    {
        let session = match self.sessions.get(&session_id.0) {
            Some(session) => session,
            None => return Err(SessionError::NotFound(session_id)),
        };
        if session.is_running() {
            match session.request_close() {
                Ok(done) => {
                    assert(done == ());
                },
                Err(err) => return Err(err),
            }
        }
        let next_active = self.choose_active_after_close(session_id);
        let index = self.position_of(session_id);
        proof {
            lemma_closed_order(self@, session_id);
            law_closed_wf(self@, session_id);
        }
        self.sessions.remove(&session_id.0);
        self.order.remove(index);
        self.active = next_active;
        proof {
            let t = old(self)@.closed(session_id);
            assert(self@ == t);
            let i = old(self)@.order.index_of(session_id);
            assert forall|k: u64| #[trigger] self.sessions@.contains_key(k) <==> self@.has(
                SessionId(k),
            ) by {
                crate::tabs::law_close_keeps_other_tabs(old(self)@, session_id);
                if k != session_id.0 {
                    assert(SessionId(k) != session_id);
                    assert(old(self).sessions@.contains_key(k) <==> old(self)@.has(SessionId(k)));
                }
            }
        }
        Ok(())
    }

    fn snapshot_for(&self, session_id: SessionId, active: bool) -> (result: Result<
        SessionSnapshot,
        SessionError,
    >)
        requires
            self.wf(),
        ensures
            self@.has(session_id) ==> (result matches Ok(snapshot) && snapshot.id == session_id
                && snapshot.active == active && self.handles()[session_id.0].snapshot_allows(
                session_id,
                active,
                snapshot,
            )),
            !self@.has(session_id) ==> result == Err::<SessionSnapshot, SessionError>(
                SessionError::NotFound(session_id),
            ),
    {
        match self.sessions.get(&session_id.0) {
            Some(session) => Ok(session.snapshot(session_id, active)),
            None => Err(SessionError::NotFound(session_id)),
        }
    }

    /// The index of an open tab in the tab order.
    fn position_of(&self, session_id: SessionId) -> (index: usize)
        requires
            self.wf(),
            self@.has(session_id),
        ensures
            index == self@.order.index_of(session_id),
            index < self@.order.len(),
            self@.order[index as int] == session_id,
    {
        let mut index: usize = 0;
        while index < self.order.len()
            invariant
                self.wf(),
                self@.has(session_id),
                index <= self@.order.len(),
                forall|j: int| 0 <= j < index ==> self@.order[j] != session_id,
            decreases self@.order.len() - index,
        {
            if self.order[index].0 == session_id.0 {
                proof {
                    lemma_index_of_unique(self@.order, index as int);
                }
                return index;
            }
            index = index + 1;
        }
        proof {
            let j = choose|j: int| 0 <= j < self@.order.len() && self@.order[j] == session_id;
            assert(self@.order[j] != session_id);
        }
        0
    }

    /// The tab that is active once `closing` is gone.
    fn choose_active_after_close(&self, closing: SessionId) -> (next: Option<SessionId>)
        requires
            self.wf(),
        ensures
            next == promoted_after_close(self@.order, self@.active, closing),
    {
        if !self.is_active(closing) {
            return self.active;
        }
        let index = self.position_of(closing);
        if index < self.order.len() - 1 {
            Some(self.order[index + 1])
        } else if index >= 1 {
            Some(self.order[index - 1])
        } else {
            None
        }
    }
}

} // verus!
