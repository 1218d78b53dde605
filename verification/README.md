# powersync

The core of a PowerSync client, written in Rust and verified with Verus: connections to SQLite and
their transactions, the events of a download and how the core extension is told of them, and the
client that runs a sync iteration.

- `src/` is the library. It decides and performs no I/O: an operation on a database or on the network
  is a value that names the next action and is told how it went. What holds of every such operation is
  proved in `src/db/connection.rs` and in `control_laws.rs`, `client_laws.rs` and
  `instruction_laws.rs` under `src/sync/download/`.
- `app/` carries the actions out with `rusqlite`, `async-channel` and `futures-lite`.
- `tests/` run the library, in part against a real SQLite.

`powersync_sqlite_nostd` is named in `Cargo.toml` for its list of result codes, which
`src/db/result_code.rs` follows. Nothing links against it: its build needs libclang.
