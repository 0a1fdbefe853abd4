//! Decision logic of the PostgreSQL cluster agent.
//!
//! Every orchestration the agent runs is a state machine: a stage names the
//! one outside call that is due next, the caller performs it and hands back
//! the reply, and the machine answers with the next stage. The machines, the
//! request validation, the parsers and the text of every answer are verified
//! here; sockets, files, subprocesses and timers live outside the library.
pub mod config;
pub mod inflight_ops;
pub mod localserver;
pub mod maintenance;
pub mod orchestration;
pub mod pcp;
pub mod peers;
pub mod peerserver;
pub mod pgpool_supervisor;
pub mod pgstandby;
pub mod preconditions;
pub mod scan;
pub mod sort;
pub mod status;
pub mod text;
pub mod time;
