# tokio-graceful-shutdown, verified core

Graceful shutdown of tokio-based services organised as a tree of subsystems:
listening for and requesting shutdowns, partial shutdowns of subtrees, error
propagation through the tree and a clean shutdown with a timeout.

## Layout

- `src/` is the verified library (Verus). It holds the decisions and data
  structures of the crate:
  - `utils/joiner_token.rs`: the joiner tree that counts the live tokens below
    each subsystem, decides when a subtree is finished and which subsystem
    catches an error;
  - `utils/remote_drop_collection.rs`: a collection whose items are removed in
    constant time through detached tokens;
  - `subsystem/`: error actions, identifiers, the registry of nested
    subsystems with partial shutdown, the error collector and the builder;
  - `toplevel.rs`: the phases of the shutdown handling and its final result;
  - `errors.rs`, `exit_state.rs`, `runner.rs`, `shutdown_token.rs`: error
    types, exit states, the mapping of task outcomes, the shutdown token.
- `app/` is ordinary Rust around the library: tasks, channels, locks, signal
  handling, timeouts, logging, and the error types with their `Error` and
  `Diagnostic` derives.
- `tests/` exercises the library.
