# pg_agent_core

The decision logic of an agent that keeps a PostgreSQL cluster behind pgpool in
order, written and proved in Verus.

- `src/` is the library. Every orchestration is a machine: its stage names the
  one outside call that is due, `step` takes the reply, and `answer` says what
  is said to the caller in the end. `orchestration.rs` holds what is needed to
  reason about whole runs; the functions named `law_..` state what holds of
  them, such as that the slot of a standby whose setup fails is dropped, or the
  drop queued. (The one exception: a follow-up after a handoff that fails only
  because a phase could not be journaled leaves the slot.)
- `app/` performs the calls: sockets, files, subprocesses and timers.
- `tests/` runs the library.
