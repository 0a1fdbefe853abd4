//! The orchestrations behind the agent's local control socket.
pub mod cluster_handoff;
pub mod cluster_init;
pub mod cluster_recover;
pub mod cluster_view;
pub mod failover;
pub mod follow_driver;
pub mod follow_primary;
pub mod handoff;
pub mod recovery;
pub mod requests;
pub mod restore_wal;
pub mod resume;
