//! Follower-side Sequence Paxos replica with a compaction-aware internal
//! log storage abstraction.
//!
//! The library virtualizes a monotonic replicated log over a host-provided
//! storage backend that may be trimmed or snapshotted, and implements the
//! follower's message-handling state machine, which preserves Paxos safety
//! across storage failures and out-of-order or dropped messages.

pub mod ballot;
pub mod follower;
pub mod internal_storage;
pub mod laws;
pub mod memory_storage;
pub mod messages;
pub mod storage;
pub mod util;
