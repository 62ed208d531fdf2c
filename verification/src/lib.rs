//! Core of a single-threaded, readiness-driven TCP echo server.
//!
//! The library holds the verified logic: the per-connection read/write
//! state machine, the fixed-capacity slot table that assigns identities
//! to live connections, and the dispatcher decisions that route readiness
//! events. All actual I/O (sockets, the OS readiness multiplexer) lives
//! outside the library; it hands events in as plain values and carries
//! out the directives the library hands back.

pub mod conn;
pub mod event;
pub mod server;
pub mod slot;

use vstd::prelude::*;

verus! {

/// Identity permanently reserved for the listening socket; never
/// issued to a connection.
pub const SENTINEL_TOKEN: usize = 0;

/// First identity that the slot table issues to a connection.
/// Identities below it are reserved for the listener and the
/// multiplexer's own use.
pub const FIRST_CONNECTION_TOKEN: usize = 2;

/// Upper bound on simultaneously live connections.
pub const MAX_CONNECTIONS: usize = 128;

/// Capacity of a connection's pending read buffer: a single read
/// yields at most this many bytes.
pub const READ_BUFFER_CAPACITY: usize = 2048;

/// Port of the fixed listening endpoint (the address is the IPv4
/// loopback address).
pub const LISTEN_PORT: u16 = 7000;

} // verus!
