//! Core logic of a background self-update agent.
//!
//! The agent ticks on a fixed interval: each tick probes connectivity,
//! reconciles a local log cache with a remote log sink, and attempts a
//! retried self-update.  This crate holds the verified decision logic:
//! configuration validation, the cache line codec, the flush protocol,
//! the online/offline tick state machine, the retry policy, and the
//! outcome message formatting.  The surrounding process performs the
//! actual I/O (network probe, file access, database writes, the update
//! itself) and feeds plain values in and out of these functions.

pub mod codec;
pub mod config;
pub mod engine;
pub mod flush;
pub mod messages;
pub mod record;
pub mod retry;
