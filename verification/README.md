# codex-agents-api

A local HTTP facade over a dedicated Codex app-server, with its rules written and
proved in Verus.

- `src/` is the library. It works on a `Store`: the saved agents, sessions,
  function calls and public records, and a list of what is left to be written out
  and announced. Each operation changes the store in memory and puts up its
  effects; its contract says exactly how. What the service asks of its backend is
  a state machine that returns the next call and takes the reply.
- `src/soundness.rs`, `src/journal.rs` and `src/steps.rs` prove that every
  operation keeps the rows well formed, never changes an agent or the snapshot of
  a session, writes out what it changed, and announces nothing that is not saved.
- `src/session_laws.rs`, `src/item_laws.rs`, `src/call_laws.rs` and
  `src/config_laws.rs` state what holds over several operations: what is read back, what a lost connection leaves
  behind, who hears which event, how an answer to a function call is retried.
- `src/outside.rs` holds every call into `serde_json`, `uuid` and the clock. Its
  contracts are the only ones that are not proved.
- `tests/` run the library on concrete values.
- `app/` is the service around the library: HTTP routes, the SQLite database, the
  connection to the app-server and the worker process. `app/codex.rs` alone uses
  the crates of Codex.
