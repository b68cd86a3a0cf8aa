# termul

The verified core of a tabbed desktop terminal.

## Layout

- `src/` — the library, verified with Verus:
  - `tabs.rs` — the abstract tab state (ids, tab order, active tab, next id),
    its transitions, and the laws proved over them (well-formedness is kept
    by every operation, ids are never reused, closing the active tab
    promotes its nearest neighbour, ...).
  - `session.rs` — session ids, configs, snapshots, events, errors, the
    per-session state, the handle/factory/sink traits, and the
    `SessionManager`, whose every operation is specified as a transition of
    the tab state and tied, through spec hooks of the handle and factory
    traits, to what the handles and the factory report.
  - `events.rs` — what the output reader and the exit waiter decide after
    each read or wait: which event to send and whether to keep reading.
  - `config.rs` — the portable configuration schema, its defaults, and the
    rules that turn the outcome of reading the config file into the
    configuration the terminal starts with.
  - `paths.rs` — the name of the config file next to the executable.
  - `output_data.rs` — the base64 text that carries shell output on the
    event channel (calls the `base64` crate).
  - `text.rs` — decimal rendering used in titles and messages.
- `app/` — ordinary Rust around the library: PTY-backed sessions
  (`portable-pty`), serde wire types, config file I/O, executable paths, and
  the command layer over a shared manager.
- `tests/` — tests of the library, with mock session handles.
