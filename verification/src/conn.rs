//! The per-connection state machine. A live connection is either
//! read-pending (its read buffer is open and empty) or write-pending (it
//! owns the bytes of its last read, partially drained); the tagged
//! `Phase` makes "exactly one buffer at a time" structural. Two ghost
//! histories, the bytes received and the bytes echoed so far, tie the
//! transitions to the echo guarantee: everything received is echoed back
//! in order, and the two histories agree whenever no write is pending.

use vstd::prelude::*;
use crate::event::{
    Directive, EventSet, PollMode, ReadEvent, TeardownReason, WriteEvent, reading_interest,
    writing_interest,
};
use crate::READ_BUFFER_CAPACITY;

verus! {

/// The pending write buffer: the bytes of one completed read, drained
/// from `cursor` towards the end. It is flipped back to a read buffer
/// before it is ever fully drained, so some bytes always remain.
pub struct WriteBuf {
    pub data: Vec<u8>,
    pub cursor: usize,
}

impl WriteBuf {
    /// The unsent remainder.
    pub open spec fn remaining(&self) -> Seq<u8> {
        self.data@.skip(self.cursor as int)
    }

    pub open spec fn wf(&self) -> bool {
        self.cursor < self.data@.len()
    }
}

/// Which buffer a live connection owns: the two phases of the
/// read-then-echo cycle.
pub enum Phase {
    /// Waiting for the socket to become readable.
    ReadPending,
    /// Waiting for the socket to accept the rest of these bytes.
    WritePending(WriteBuf),
}

/// One accepted client connection, as the verified core sees it: its
/// slot-table identity, its phase, and the interest set mirrored into
/// the multiplexer. The socket itself lives with the reactor shell,
/// keyed by the same identity.
pub struct Connection {
    pub identity: usize,
    pub phase: Phase,
    pub interest: EventSet,
    /// All bytes the peer has sent so far, in order.
    pub received: Ghost<Seq<u8>>,
    /// All bytes echoed back to the peer so far, in order.
    pub echoed: Ghost<Seq<u8>>,
}

impl Connection {
    pub open spec fn is_read_pending(&self) -> bool {
        self.phase is ReadPending
    }

    pub open spec fn is_write_pending(&self) -> bool {
        self.phase is WritePending
    }

    /// The pending read buffer is populated (open for filling) exactly
    /// in the read-pending phase.
    pub open spec fn read_buffer_populated(&self) -> bool {
        self.is_read_pending()
    }

    /// The pending write buffer is populated exactly in the
    /// write-pending phase.
    pub open spec fn write_buffer_populated(&self) -> bool {
        self.is_write_pending()
    }

    /// The bytes received but not yet echoed back.
    pub open spec fn pending(&self) -> Seq<u8> {
        match self.phase {
            Phase::ReadPending => Seq::<u8>::empty(),
            Phase::WritePending(b) => b.remaining(),
        }
    }

    pub open spec fn wf(&self) -> bool {
        &&& self.interest.hangup
        &&& match self.phase {
            Phase::ReadPending => {
                &&& self.interest == reading_interest()
                &&& self.echoed@ == self.received@
            },
            Phase::WritePending(b) => {
                &&& self.interest == writing_interest()
                &&& b.wf()
                &&& self.received@ == self.echoed@ + b.remaining()
            },
        }
    }

    /// A fresh connection: read-pending, registered for readable
    /// events, with empty histories.
    pub fn new(identity: usize) -> (r: Connection)
        ensures
            r.wf(),
            r.identity == identity,
            r.is_read_pending(),
            r.received@ == Seq::<u8>::empty(),
            r.echoed@ == Seq::<u8>::empty(),
    {
        Connection {
            identity,
            phase: Phase::ReadPending,
            interest: EventSet { readable: true, writable: false, hangup: true },
            received: Ghost(Seq::<u8>::empty()),
            echoed: Ghost(Seq::<u8>::empty()),
        }
    }

    /// Handles the outcome of the read attempted after a readable
    /// notification. A read of one or more bytes flips the connection
    /// into the write-pending phase, rearming for writable events,
    /// one-shot. A zero-byte read is orderly peer shutdown; a would-block
    /// read breaks the multiplexer's readiness promise; a hard error and
    /// a readable event outside the read-pending phase are likewise
    /// fatal to this connection alone: each yields a teardown directive
    /// and leaves the connection untouched for its caller to evict.
    pub fn on_readable(self, ev: ReadEvent) -> (r: (Connection, Directive))
        requires
            self.wf(),
            ev is Bytes ==> ev->0@.len() <= READ_BUFFER_CAPACITY,
        ensures
            r.0.identity == self.identity,
            (self.is_read_pending() && ev is Bytes && ev->0@.len() > 0) ==> {
                &&& r.0.wf()
                &&& r.0.is_write_pending()
                &&& r.0.pending() == ev->0@
                &&& r.0.received@ == self.received@ + ev->0@
                &&& r.0.echoed@ == self.echoed@
                &&& r.0.interest == writing_interest()
                &&& r.1 == (Directive::Reregister {
                    interest: writing_interest(),
                    mode: PollMode::EdgeOneshot,
                })
            },
            (self.is_read_pending() && ev is Bytes && ev->0@.len() == 0) ==> r.0
                == self && r.1 == (Directive::Teardown { reason: TeardownReason::PeerClosed }),
            (self.is_read_pending() && ev is WouldBlock) ==> r.0 == self && r.1 == (
            Directive::Teardown { reason: TeardownReason::ReadinessViolation }),
            (self.is_read_pending() && ev is Failed) ==> r.0 == self && r.1 == (
            Directive::Teardown { reason: TeardownReason::IoFailure }),
            self.is_write_pending() ==> r.0 == self && r.1 == (Directive::Teardown {
                reason: TeardownReason::PhaseMismatch,
            }),
    {
        let Connection { identity, phase, interest, received, echoed } = self;
        match phase {
            Phase::ReadPending => match ev {
                ReadEvent::Bytes(bytes) => {
                    if bytes.len() == 0 {
                        let conn = Connection {
                            identity,
                            phase: Phase::ReadPending,
                            interest,
                            received,
                            echoed,
                        };
                        (conn, Directive::Teardown { reason: TeardownReason::PeerClosed })
                    } else {
                        let ghost bs = bytes@;
                        let conn = Connection {
                            identity,
                            phase: Phase::WritePending(WriteBuf { data: bytes, cursor: 0 }),
                            interest: EventSet { readable: false, writable: true, hangup: true },
                            received: Ghost(received@ + bs),
                            echoed,
                        };
                        proof {
                            assert(conn.pending() =~= bs);
                            assert(conn.received@ =~= conn.echoed@ + conn.pending());
                        }
                        (
                            conn,
                            Directive::Reregister {
                                interest: EventSet {
                                    readable: false,
                                    writable: true,
                                    hangup: true,
                                },
                                mode: PollMode::EdgeOneshot,
                            },
                        )
                    }
                },
                ReadEvent::WouldBlock => {
                    let conn = Connection {
                        identity,
                        phase: Phase::ReadPending,
                        interest,
                        received,
                        echoed,
                    };
                    (conn, Directive::Teardown { reason: TeardownReason::ReadinessViolation })
                },
                ReadEvent::Failed => {
                    let conn = Connection {
                        identity,
                        phase: Phase::ReadPending,
                        interest,
                        received,
                        echoed,
                    };
                    (conn, Directive::Teardown { reason: TeardownReason::IoFailure })
                },
            },
            Phase::WritePending(buf) => {
                let conn = Connection {
                    identity,
                    phase: Phase::WritePending(buf),
                    interest,
                    received,
                    echoed,
                };
                (conn, Directive::Teardown { reason: TeardownReason::PhaseMismatch })
            },
        }
    }

    /// Handles the outcome of the write attempted after a writable
    /// notification. Back-pressure (no bytes taken) keeps the buffer and
    /// rearms for writable events; a partial write advances the cursor
    /// and stays write-pending; draining the final byte flips the
    /// connection back to read-pending, rearming for readable events.
    /// Every rearm is edge-triggered one-shot. A hard error, and a
    /// writable event outside the write-pending phase, are fatal to this
    /// connection alone.
    pub fn on_writable(self, ev: WriteEvent) -> (r: (Connection, Directive))
        requires
            self.wf(),
            (self.is_write_pending() && ev is Wrote) ==> ev->0 <= self.pending().len(),
        ensures
            r.0.identity == self.identity,
            r.0.received@ == self.received@,
            (self.is_write_pending() && ev is WouldBlock) ==> r.0 == self && r.1 == (
            Directive::Reregister { interest: writing_interest(), mode: PollMode::EdgeOneshot }),
            (self.is_write_pending() && ev is Wrote && ev->0 < self.pending().len()) ==> {
                &&& r.0.wf()
                &&& r.0.is_write_pending()
                &&& r.0.pending() == self.pending().skip(ev->0 as int)
                &&& r.0.echoed@ == self.echoed@ + self.pending().take(ev->0 as int)
                &&& r.0.interest == writing_interest()
                &&& r.1 == (Directive::Reregister {
                    interest: writing_interest(),
                    mode: PollMode::EdgeOneshot,
                })
            },
            (self.is_write_pending() && ev is Wrote && ev->0 == self.pending().len()) ==> {
                &&& r.0.wf()
                &&& r.0.is_read_pending()
                &&& r.0.echoed@ == self.echoed@ + self.pending()
                &&& r.0.echoed@ == r.0.received@
                &&& r.0.interest == reading_interest()
                &&& r.1 == (Directive::Reregister {
                    interest: reading_interest(),
                    mode: PollMode::EdgeOneshot,
                })
            },
            (self.is_write_pending() && ev is Failed) ==> r.0 == self && r.1 == (
            Directive::Teardown { reason: TeardownReason::IoFailure }),
            self.is_read_pending() ==> r.0 == self && r.1 == (Directive::Teardown {
                reason: TeardownReason::PhaseMismatch,
            }),
    {
        let Connection { identity, phase, interest, received, echoed } = self;
        match phase {
            Phase::WritePending(buf) => match ev {
                WriteEvent::WouldBlock => {
                    let conn = Connection {
                        identity,
                        phase: Phase::WritePending(buf),
                        interest,
                        received,
                        echoed,
                    };
                    (
                        conn,
                        Directive::Reregister {
                            interest: EventSet { readable: false, writable: true, hangup: true },
                            mode: PollMode::EdgeOneshot,
                        },
                    )
                },
                WriteEvent::Wrote(n) => {
                    let WriteBuf { data, cursor } = buf;
                    let dlen = data.len();
                    proof {
                        assert(self.pending() == data@.skip(cursor as int));
                        assert(self.pending().len() == data@.len() - cursor);
                        assert(n <= dlen - cursor);
                    }
                    let ghost sent = data@.subrange(cursor as int, cursor as int + n as int);
                    let new_cursor = cursor + n;
                    proof {
                        assert(data@.skip(cursor as int) =~= sent + data@.skip(new_cursor as int));
                    }
                    if new_cursor < dlen {
                        proof {
                            assert(self.pending().take(n as int) =~= sent);
                            assert((echoed@ + sent) + data@.skip(new_cursor as int) =~= echoed@ + (
                            sent + data@.skip(new_cursor as int)));
                        }
                        let conn = Connection {
                            identity,
                            phase: Phase::WritePending(WriteBuf { data, cursor: new_cursor }),
                            interest,
                            received,
                            echoed: Ghost(echoed@ + sent),
                        };
                        (
                            conn,
                            Directive::Reregister {
                                interest: EventSet {
                                    readable: false,
                                    writable: true,
                                    hangup: true,
                                },
                                mode: PollMode::EdgeOneshot,
                            },
                        )
                    } else {
                        proof {
                            assert(sent =~= data@.skip(cursor as int));
                        }
                        let conn = Connection {
                            identity,
                            phase: Phase::ReadPending,
                            interest: EventSet { readable: true, writable: false, hangup: true },
                            received,
                            echoed: Ghost(echoed@ + sent),
                        };
                        (
                            conn,
                            Directive::Reregister {
                                interest: EventSet {
                                    readable: true,
                                    writable: false,
                                    hangup: true,
                                },
                                mode: PollMode::EdgeOneshot,
                            },
                        )
                    }
                },
                WriteEvent::Failed => {
                    let conn = Connection {
                        identity,
                        phase: Phase::WritePending(buf),
                        interest,
                        received,
                        echoed,
                    };
                    (conn, Directive::Teardown { reason: TeardownReason::IoFailure })
                },
            },
            Phase::ReadPending => {
                let conn = Connection {
                    identity,
                    phase: Phase::ReadPending,
                    interest,
                    received,
                    echoed,
                };
                (conn, Directive::Teardown { reason: TeardownReason::PhaseMismatch })
            },
        }
    }
}

/// Echo fidelity: on a well-formed connection the received history is
/// exactly the echoed history followed by the still-pending bytes, so
/// every byte received is echoed back, byte for byte and in order; once
/// no write is pending, the two histories are equal.
pub proof fn lemma_echo_fidelity(c: Connection)
    requires
        c.wf(),
    ensures
        c.received@ == c.echoed@ + c.pending(),
        c.is_read_pending() ==> c.received@ == c.echoed@,
{
    match c.phase {
        Phase::ReadPending => {
            assert(c.echoed@ + c.pending() =~= c.echoed@);
        },
        Phase::WritePending(b) => {},
    }
}

/// At most one phase: a live, well-formed connection has either a
/// populated pending-read buffer or a populated pending-write buffer,
/// never both and never neither.
pub proof fn lemma_single_buffer(c: Connection)
    requires
        c.wf(),
    ensures
        c.read_buffer_populated() <==> !c.write_buffer_populated(),
{
}

/// One-shot rearming: while a connection has an unfinished write, its
/// interest set excludes readable, so the one-shot multiplexer delivers
/// it no further readable event until it has flipped back to
/// read-pending and been reregistered.
pub proof fn lemma_oneshot_rearm(c: Connection)
    requires
        c.wf(),
        c.is_write_pending(),
    ensures
        !c.interest.readable,
{
}

} // verus!
