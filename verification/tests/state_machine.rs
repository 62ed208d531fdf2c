//! Connection state machine: phase transitions, buffer flipping, and the
//! directives handed back for each read/write outcome.

use echo_reactor::conn::{Connection, Phase};
use echo_reactor::event::{Directive, EventSet, PollMode, ReadEvent, TeardownReason, WriteEvent};

fn writable_interest() -> EventSet {
    EventSet { readable: false, writable: true, hangup: true }
}

fn readable_interest() -> EventSet {
    EventSet { readable: true, writable: false, hangup: true }
}

#[test]
fn new_connection_is_read_pending() {
    let c = Connection::new(7);
    assert_eq!(c.identity, 7);
    assert!(matches!(c.phase, Phase::ReadPending));
    assert_eq!(c.interest, readable_interest());
}

#[test]
fn read_flips_to_write_pending() {
    let c = Connection::new(2);
    let (c, d) = c.on_readable(ReadEvent::Bytes(b"hello".to_vec()));
    assert_eq!(
        d,
        Directive::Reregister { interest: writable_interest(), mode: PollMode::EdgeOneshot }
    );
    assert_eq!(c.interest, writable_interest());
    match &c.phase {
        Phase::WritePending(b) => {
            assert_eq!(b.data, b"hello".to_vec());
            assert_eq!(b.cursor, 0);
        }
        Phase::ReadPending => panic!("expected write-pending"),
    }
}

#[test]
fn zero_byte_read_is_peer_close() {
    let c = Connection::new(2);
    let (c, d) = c.on_readable(ReadEvent::Bytes(Vec::new()));
    assert_eq!(d, Directive::Teardown { reason: TeardownReason::PeerClosed });
    assert!(matches!(c.phase, Phase::ReadPending));
}

#[test]
fn would_block_read_is_fatal() {
    let c = Connection::new(2);
    let (_, d) = c.on_readable(ReadEvent::WouldBlock);
    assert_eq!(d, Directive::Teardown { reason: TeardownReason::ReadinessViolation });
}

#[test]
fn read_error_is_fatal() {
    let c = Connection::new(2);
    let (_, d) = c.on_readable(ReadEvent::Failed);
    assert_eq!(d, Directive::Teardown { reason: TeardownReason::IoFailure });
}

#[test]
fn readable_while_write_pending_is_mismatch() {
    let c = Connection::new(2);
    let (c, _) = c.on_readable(ReadEvent::Bytes(b"x".to_vec()));
    let (_, d) = c.on_readable(ReadEvent::Bytes(b"y".to_vec()));
    assert_eq!(d, Directive::Teardown { reason: TeardownReason::PhaseMismatch });
}

#[test]
fn full_write_flips_back_to_read_pending() {
    let c = Connection::new(2);
    let (c, _) = c.on_readable(ReadEvent::Bytes(b"hello".to_vec()));
    let (c, d) = c.on_writable(WriteEvent::Wrote(5));
    assert_eq!(
        d,
        Directive::Reregister { interest: readable_interest(), mode: PollMode::EdgeOneshot }
    );
    assert!(matches!(c.phase, Phase::ReadPending));
    assert_eq!(c.interest, readable_interest());
}

#[test]
fn partial_write_keeps_write_pending() {
    let c = Connection::new(2);
    let (c, _) = c.on_readable(ReadEvent::Bytes(b"hello".to_vec()));
    let (c, d) = c.on_writable(WriteEvent::Wrote(2));
    assert_eq!(
        d,
        Directive::Reregister { interest: writable_interest(), mode: PollMode::EdgeOneshot }
    );
    match &c.phase {
        Phase::WritePending(b) => {
            assert_eq!(b.data, b"hello".to_vec());
            assert_eq!(b.cursor, 2);
        }
        Phase::ReadPending => panic!("expected write-pending"),
    }
    let (c, d) = c.on_writable(WriteEvent::Wrote(3));
    assert_eq!(
        d,
        Directive::Reregister { interest: readable_interest(), mode: PollMode::EdgeOneshot }
    );
    assert!(matches!(c.phase, Phase::ReadPending));
}

#[test]
fn write_back_pressure_keeps_buffer() {
    let c = Connection::new(2);
    let (c, _) = c.on_readable(ReadEvent::Bytes(b"abc".to_vec()));
    let (c, d) = c.on_writable(WriteEvent::WouldBlock);
    assert_eq!(
        d,
        Directive::Reregister { interest: writable_interest(), mode: PollMode::EdgeOneshot }
    );
    match &c.phase {
        Phase::WritePending(b) => {
            assert_eq!(b.data, b"abc".to_vec());
            assert_eq!(b.cursor, 0);
        }
        Phase::ReadPending => panic!("expected write-pending"),
    }
}

#[test]
fn zero_byte_write_keeps_write_pending() {
    let c = Connection::new(2);
    let (c, _) = c.on_readable(ReadEvent::Bytes(b"abc".to_vec()));
    let (c, d) = c.on_writable(WriteEvent::Wrote(0));
    assert_eq!(
        d,
        Directive::Reregister { interest: writable_interest(), mode: PollMode::EdgeOneshot }
    );
    match &c.phase {
        Phase::WritePending(b) => assert_eq!(b.cursor, 0),
        Phase::ReadPending => panic!("expected write-pending"),
    }
}

#[test]
fn write_error_is_fatal() {
    let c = Connection::new(2);
    let (c, _) = c.on_readable(ReadEvent::Bytes(b"abc".to_vec()));
    let (_, d) = c.on_writable(WriteEvent::Failed);
    assert_eq!(d, Directive::Teardown { reason: TeardownReason::IoFailure });
}

#[test]
fn writable_while_read_pending_is_mismatch() {
    let c = Connection::new(2);
    let (_, d) = c.on_writable(WriteEvent::Wrote(0));
    assert_eq!(d, Directive::Teardown { reason: TeardownReason::PhaseMismatch });
}

#[test]
fn one_buffer_at_a_time() {
    // The tagged phase makes "read buffer or write buffer, never both,
    // never neither" structural: every live connection is in exactly one.
    let c = Connection::new(2);
    assert!(matches!(c.phase, Phase::ReadPending));
    let (c, _) = c.on_readable(ReadEvent::Bytes(b"a".to_vec()));
    assert!(matches!(c.phase, Phase::WritePending(_)));
    let (c, _) = c.on_writable(WriteEvent::Wrote(1));
    assert!(matches!(c.phase, Phase::ReadPending));
}

#[test]
fn oneshot_interest_excludes_readable_while_writing() {
    let c = Connection::new(2);
    let (c, _) = c.on_readable(ReadEvent::Bytes(b"hi".to_vec()));
    assert!(!c.interest.readable);
    assert!(c.interest.writable);
    let (c, _) = c.on_writable(WriteEvent::Wrote(1));
    assert!(!c.interest.readable);
    let (c, _) = c.on_writable(WriteEvent::Wrote(1));
    assert!(c.interest.readable);
    assert!(!c.interest.writable);
}
