//! Core engine of a playlist-watcher service: watchers link a source playlist
//! endpoint to a target endpoint and are synced on a schedule by copying the
//! tracks that are missing from the target, optionally sweeping the source.
//!
//! The crate holds the engine's logic — endpoint and identifier handling, the
//! credential lifecycle, the paginated-read and chunked-write bookkeeping, the
//! set-diff transfer machine and the scheduler's decisions — with contracts
//! proved by Verus. Network and database plumbing live outside the crate and
//! drive these types with plain values.

pub mod batch;
pub mod clock;
pub mod config;
pub mod context;
pub mod diff;
pub mod endpoint;
pub mod error;
pub mod ids;
pub mod model;
pub mod pagination;
pub mod repo;
pub mod response;
pub mod rules;
pub mod schedule;
pub mod token;
pub mod transfer;
pub mod view;
