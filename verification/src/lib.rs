//! Core of a command-dispatch client for a key-value store that runs either
//! as a single node or as a sharded cluster.
//!
//! The crate holds the store-independent logic: classifying commands by the
//! semantic type of their reply, coercing raw wire values into that type,
//! resolving routing for commands and pipelines, turning a connection request
//! into connection plans, and mapping call outcomes (completion, failure,
//! timeout) into the client's error taxonomy. The network collaborators that
//! actually carry commands to the store live outside this crate and hand
//! their results back in as plain values.
use vstd::prelude::*;

pub mod client;
pub mod command;
pub mod convert;
pub mod config;
pub mod errors;
pub mod routing;
pub mod summary;
pub mod value;

verus! {

/// Milliseconds to wait for a reply when the connection request does not set
/// a timeout of its own.
pub const DEFAULT_RESPONSE_TIMEOUT_MS: u64 = 250;

/// Milliseconds allowed for one attempt to connect to a single node.
pub const DEFAULT_CONNECTION_ATTEMPT_TIMEOUT_MS: u64 = 250;

/// Milliseconds allowed for each connection attempt while a cluster
/// connection is being established.
pub const INTERNAL_CONNECTION_TIMEOUT_MS: u64 = 250;

/// Milliseconds between heartbeats sent on an idle connection.
pub const HEARTBEAT_SLEEP_DURATION_MS: u64 = 1000;

} // verus!
