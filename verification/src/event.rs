//! Plain-value vocabulary shared between the verified core and the
//! unverified reactor shell: event sets, polling modes, the outcomes of
//! non-blocking reads and writes, and the directives the core hands back.

use vstd::prelude::*;

verus! {

/// A set of readiness kinds: what a socket is ready for, or what a
/// connection wants to be notified of.
#[derive(Clone, Copy, Debug, PartialEq, Eq, Structural)]
pub struct EventSet {
    pub readable: bool,
    pub writable: bool,
    pub hangup: bool,
}

/// Interest registered while a connection waits to read: readable plus
/// the informational hangup kind.
pub open spec fn reading_interest() -> EventSet {
    EventSet { readable: true, writable: false, hangup: true }
}

/// Interest registered while a connection waits to drain its pending
/// write buffer: writable plus the informational hangup kind.
pub open spec fn writing_interest() -> EventSet {
    EventSet { readable: false, writable: true, hangup: true }
}

/// Polling mode for a registration. Notification is edge-triggered in
/// either mode; `EdgeOneshot` additionally disarms the interest after
/// one delivery until it is explicitly rearmed.
#[derive(Clone, Copy, Debug, PartialEq, Eq, Structural)]
pub enum PollMode {
    Edge,
    EdgeOneshot,
}

/// Why a connection is being torn down.
#[derive(Clone, Copy, Debug, PartialEq, Eq, Structural)]
pub enum TeardownReason {
    /// A read returned zero bytes: the peer closed its write side.
    PeerClosed,
    /// A readable notification was followed by a would-block read: the
    /// multiplexer's readiness contract was violated.
    ReadinessViolation,
    /// A hard I/O error on the socket.
    IoFailure,
    /// An event arrived for a connection that is not in the matching
    /// phase: a consistency violation.
    PhaseMismatch,
}

/// What the reactor shell must do with a connection's socket after the
/// state machine has handled an event.
#[derive(Clone, Copy, Debug, PartialEq, Eq, Structural)]
pub enum Directive {
    /// Update the socket's registration with the multiplexer.
    Reregister { interest: EventSet, mode: PollMode },
    /// The connection has already been removed from the slot table:
    /// deregister the socket and close it.
    Teardown { reason: TeardownReason },
}

/// Outcome of one non-blocking read attempted on a readable socket.
pub enum ReadEvent {
    /// The read reported that no data is available yet.
    WouldBlock,
    /// The read returned these bytes; an empty sequence signals orderly
    /// peer shutdown.
    Bytes(Vec<u8>),
    /// The read failed with a hard I/O error.
    Failed,
}

/// Outcome of one non-blocking write attempted on a writable socket.
#[derive(Clone, Copy, Debug, PartialEq, Eq, Structural)]
pub enum WriteEvent {
    /// The write reported transient back-pressure; no bytes were taken.
    WouldBlock,
    /// The socket accepted this many bytes of the portion handed to it.
    Wrote(usize),
    /// The write failed with a hard I/O error.
    Failed,
}

/// Errors of the slot table, mirroring the error taxonomy of the
/// dispatcher: the table is full, or an identity is stale or unknown.
#[derive(Clone, Copy, Debug, PartialEq, Eq, Structural)]
pub enum SlotError {
    CapacityExceeded,
    InvalidIdentity,
}

} // verus!
