//! The listener/dispatcher: owns the slot table, accepts new connections
//! into it, and routes readiness events to the right connection's state
//! machine. Teardown removes the connection from the table before the
//! caller is told to deregister the socket, so no identity ever dangles.

use vstd::prelude::*;
use crate::conn::{Connection, Phase};
use crate::event::{
    Directive, EventSet, PollMode, ReadEvent, SlotError, TeardownReason, WriteEvent,
    reading_interest, writing_interest,
};
use crate::slot::{SlotTable, lemma_next_identity_reaches_free};
use crate::{FIRST_CONNECTION_TOKEN, MAX_CONNECTIONS, READ_BUFFER_CAPACITY, SENTINEL_TOKEN};

verus! {

/// Where one readiness event must be routed: the listener accepts when
/// readable and must never be notified writable; a client connection is
/// offered its read before its write when both fire in one batch.
#[derive(Clone, Copy, Debug, PartialEq, Eq, Structural)]
pub enum Route {
    Listener { accept: bool, misuse: bool },
    Client { read: bool, write: bool },
}

/// Resolves one `(identity, events)` pair from the multiplexer: the
/// sentinel identity belongs to the listener, every other identity to a
/// client connection.
pub fn route(token: usize, events: EventSet) -> (r: Route)
    ensures
        token == SENTINEL_TOKEN ==> r == (Route::Listener {
            accept: events.readable,
            misuse: events.writable,
        }),
        token != SENTINEL_TOKEN ==> r == (Route::Client {
            read: events.readable,
            write: events.writable,
        }),
{
    if token == SENTINEL_TOKEN {
        Route::Listener { accept: events.readable, misuse: events.writable }
    } else {
        Route::Client { read: events.readable, write: events.writable }
    }
}

/// The echo server's verified state: the table of live connections,
/// keyed by the identities registered with the multiplexer. The
/// listening socket and the client sockets live with the reactor shell.
pub struct EchoServer {
    pub conns: SlotTable<Connection>,
}

impl View for EchoServer {
    type V = Map<int, Connection>;

    open spec fn view(&self) -> Map<int, Connection> {
        self.conns@
    }
}

impl EchoServer {
    /// Every live connection is well-formed and keyed by its own
    /// identity, and the table issues identities above the sentinel.
    pub open spec fn wf(&self) -> bool {
        &&& self.conns.wf()
        &&& self.conns.base_spec() == FIRST_CONNECTION_TOKEN as int
        &&& self.conns.capacity_spec() == MAX_CONNECTIONS as int
        &&& forall|id: int| #[trigger] self@.dom().contains(id) ==> self@[id].wf()
            && self@[id].identity == id
    }

    /// No slot is left for another connection.
    pub open spec fn at_capacity(&self) -> bool {
        self.conns.is_full()
    }

    /// The identity the next successful accept will be assigned.
    pub open spec fn next_token(&self) -> int {
        self.conns.next_identity()
    }

    /// A server with no connections.
    pub fn new() -> (r: EchoServer)
        ensures
            r.wf(),
            r@ == Map::<int, Connection>::empty(),
    {
        EchoServer { conns: SlotTable::new(FIRST_CONNECTION_TOKEN, MAX_CONNECTIONS) }
    }

    /// Admits one freshly accepted connection: assigns it the lowest
    /// free identity, distinct from the sentinel and from every live
    /// identity, and hands back the registration its socket needs
    /// (readable, edge-triggered, one-shot). Exactly when the table is
    /// full the accept is refused with `CapacityExceeded` and the
    /// existing connections are untouched.
    pub fn accept(&mut self) -> (r: Result<(usize, EventSet, PollMode), SlotError>)
        requires
            old(self).wf(),
        ensures
            final(self).wf(),
            r is Ok <==> !old(self).at_capacity(),
            r is Err ==> r == Err::<(usize, EventSet, PollMode), SlotError>(
                SlotError::CapacityExceeded,
            ) && *final(self) == *old(self),
            r matches Ok((tok, interest, mode)) ==> {
                &&& tok != SENTINEL_TOKEN
                &&& FIRST_CONNECTION_TOKEN <= tok < FIRST_CONNECTION_TOKEN + MAX_CONNECTIONS
                &&& !old(self)@.dom().contains(tok as int)
                &&& tok as int == old(self).next_token()
                &&& final(self)@.dom() == old(self)@.dom().insert(tok as int)
                &&& final(self)@.remove(tok as int) == old(self)@
                &&& final(self)@[tok as int].wf()
                &&& final(self)@[tok as int].is_read_pending()
                &&& final(self)@[tok as int].received@ == Seq::<u8>::empty()
                &&& final(self)@[tok as int].echoed@ == Seq::<u8>::empty()
                &&& final(self)@[tok as int].identity == tok
                &&& interest == reading_interest()
                &&& mode == PollMode::EdgeOneshot
            },
    {
        let tok_opt = self.conns.next_free();
        match tok_opt {
            None => Err(SlotError::CapacityExceeded),
            Some(tok) => {
                let conn = Connection::new(tok);
                let res = self.conns.insert(conn);
                match res {
                    Err(_) => {
                        proof {
                            assert(false);
                        }
                        Err(SlotError::CapacityExceeded)
                    },
                    Ok(id) => {
                        proof {
                            assert(id == tok);
                            assert(self@.dom() =~= old(self)@.dom().insert(tok as int));
                            assert(self@.remove(tok as int) =~= old(self)@);
                            assert forall|i: int| self@.dom().contains(i) implies self@[i].wf()
                                && self@[i].identity == i by {
                                if i != tok as int {
                                    assert(old(self)@.dom().contains(i));
                                }
                            }
                        }
                        Ok(
                            (
                                tok,
                                EventSet { readable: true, writable: false, hangup: true },
                                PollMode::EdgeOneshot,
                            ),
                        )
                    },
                }
            },
        }
    }

    /// Routes a readable event to the connection behind `token`, handing
    /// it the outcome of the read; fails with `InvalidIdentity`, leaving
    /// the server untouched, exactly when `token` is stale or unknown.
    /// On a teardown directive the connection is already removed here,
    /// before its socket is deregistered; a zero-byte read tears the
    /// connection down only after everything received was echoed.
    pub fn conn_readable(&mut self, token: usize, ev: ReadEvent) -> (r: Result<
        Directive,
        SlotError,
    >)
        requires
            old(self).wf(),
            ev is Bytes ==> ev->0@.len() <= READ_BUFFER_CAPACITY,
        ensures
            final(self).wf(),
            r is Err <==> !old(self)@.dom().contains(token as int),
            r is Err ==> r == Err::<Directive, SlotError>(SlotError::InvalidIdentity)
                && *final(self) == *old(self),
            r matches Ok(d) ==> ({
                let c = old(self)@[token as int];
                &&& (c.is_read_pending() && ev is Bytes && ev->0@.len() > 0) ==> {
                    &&& d == (Directive::Reregister {
                        interest: writing_interest(),
                        mode: PollMode::EdgeOneshot,
                    })
                    &&& final(self)@.dom() == old(self)@.dom()
                    &&& final(self)@.remove(token as int) == old(self)@.remove(token as int)
                    &&& final(self)@[token as int].is_write_pending()
                    &&& final(self)@[token as int].pending() == ev->0@
                    &&& final(self)@[token as int].received@ == c.received@ + ev->0@
                    &&& final(self)@[token as int].echoed@ == c.echoed@
                }
                &&& !(c.is_read_pending() && ev is Bytes && ev->0@.len() > 0) ==> {
                    &&& d is Teardown
                    &&& final(self)@ == old(self)@.remove(token as int)
                }
                &&& (c.is_read_pending() && ev is Bytes && ev->0@.len() == 0) ==> d == (
                Directive::Teardown { reason: TeardownReason::PeerClosed }) && c.echoed@
                    == c.received@
                &&& (c.is_read_pending() && ev is WouldBlock) ==> d == (Directive::Teardown {
                    reason: TeardownReason::ReadinessViolation,
                })
                &&& (c.is_read_pending() && ev is Failed) ==> d == (Directive::Teardown {
                    reason: TeardownReason::IoFailure,
                })
                &&& c.is_write_pending() ==> d == (Directive::Teardown {
                    reason: TeardownReason::PhaseMismatch,
                })
            }),
    {
        proof {
            self.conns.lemma_dom_in_range();
        }
        let taken = self.conns.take(token);
        match taken {
            None => Err(SlotError::InvalidIdentity),
            Some(conn) => {
                let (conn2, d) = conn.on_readable(ev);
                match d {
                    Directive::Reregister { .. } => {
                        self.conns.put(token, conn2);
                        proof {
                            assert(self@.dom() =~= old(self)@.dom());
                            assert(self@.remove(token as int) =~= old(self)@.remove(
                                token as int,
                            ));
                            assert forall|i: int| self@.dom().contains(i) implies self@[i].wf()
                                && self@[i].identity == i by {
                                if i != token as int {
                                    assert(old(self)@.dom().contains(i));
                                }
                            }
                        }
                        Ok(d)
                    },
                    Directive::Teardown { .. } => {
                        proof {
                            assert forall|i: int| self@.dom().contains(i) implies self@[i].wf()
                                && self@[i].identity == i by {
                                assert(old(self)@.dom().contains(i));
                            }
                        }
                        Ok(d)
                    },
                }
            },
        }
    }

    /// Routes a writable event to the connection behind `token`, handing
    /// it the outcome of the write attempted on its pending bytes; fails
    /// with `InvalidIdentity`, leaving the server untouched, exactly
    /// when `token` is stale or unknown. Back-pressure and partial
    /// writes keep the connection write-pending; draining the last byte
    /// flips it back to read-pending with its whole received history
    /// echoed.
    pub fn conn_writable(&mut self, token: usize, ev: WriteEvent) -> (r: Result<
        Directive,
        SlotError,
    >)
        requires
            old(self).wf(),
            (old(self)@.dom().contains(token as int) && old(self)@[token as int].is_write_pending()
                && ev is Wrote) ==> ev->0 <= old(self)@[token as int].pending().len(),
        ensures
            final(self).wf(),
            r is Err <==> !old(self)@.dom().contains(token as int),
            r is Err ==> r == Err::<Directive, SlotError>(SlotError::InvalidIdentity)
                && *final(self) == *old(self),
            r matches Ok(d) ==> ({
                let c = old(self)@[token as int];
                &&& (c.is_write_pending() && ev is WouldBlock) ==> {
                    &&& d == (Directive::Reregister {
                        interest: writing_interest(),
                        mode: PollMode::EdgeOneshot,
                    })
                    &&& final(self)@ == old(self)@
                }
                &&& (c.is_write_pending() && ev is Wrote && ev->0 < c.pending().len()) ==> {
                    &&& d == (Directive::Reregister {
                        interest: writing_interest(),
                        mode: PollMode::EdgeOneshot,
                    })
                    &&& final(self)@.dom() == old(self)@.dom()
                    &&& final(self)@.remove(token as int) == old(self)@.remove(token as int)
                    &&& final(self)@[token as int].is_write_pending()
                    &&& final(self)@[token as int].pending() == c.pending().skip(ev->0 as int)
                    &&& final(self)@[token as int].echoed@ == c.echoed@ + c.pending().take(
                        ev->0 as int,
                    )
                    &&& final(self)@[token as int].received@ == c.received@
                }
                &&& (c.is_write_pending() && ev is Wrote && ev->0 == c.pending().len()) ==> {
                    &&& d == (Directive::Reregister {
                        interest: reading_interest(),
                        mode: PollMode::EdgeOneshot,
                    })
                    &&& final(self)@.dom() == old(self)@.dom()
                    &&& final(self)@.remove(token as int) == old(self)@.remove(token as int)
                    &&& final(self)@[token as int].is_read_pending()
                    &&& final(self)@[token as int].echoed@ == c.echoed@ + c.pending()
                    &&& final(self)@[token as int].echoed@ == final(self)@[token as int].received@
                    &&& final(self)@[token as int].received@ == c.received@
                }
                &&& (c.is_write_pending() && ev is Failed) ==> d == (Directive::Teardown {
                    reason: TeardownReason::IoFailure,
                }) && final(self)@ == old(self)@.remove(token as int)
                &&& c.is_read_pending() ==> d == (Directive::Teardown {
                    reason: TeardownReason::PhaseMismatch,
                }) && final(self)@ == old(self)@.remove(token as int)
            }),
    {
        proof {
            self.conns.lemma_dom_in_range();
        }
        let taken = self.conns.take(token);
        match taken {
            None => Err(SlotError::InvalidIdentity),
            Some(conn) => {
                let (conn2, d) = conn.on_writable(ev);
                match d {
                    Directive::Reregister { .. } => {
                        self.conns.put(token, conn2);
                        proof {
                            assert(self@.dom() =~= old(self)@.dom());
                            assert(self@.remove(token as int) =~= old(self)@.remove(
                                token as int,
                            ));
                            if old(self)@[token as int].is_write_pending() && ev is WouldBlock {
                                assert(self@ =~= old(self)@);
                            }
                            assert forall|i: int| self@.dom().contains(i) implies self@[i].wf()
                                && self@[i].identity == i by {
                                if i != token as int {
                                    assert(old(self)@.dom().contains(i));
                                }
                            }
                        }
                        Ok(d)
                    },
                    Directive::Teardown { .. } => {
                        proof {
                            assert forall|i: int| self@.dom().contains(i) implies self@[i].wf()
                                && self@[i].identity == i by {
                                assert(old(self)@.dom().contains(i));
                            }
                        }
                        Ok(d)
                    },
                }
            },
        }
    }

    /// The bytes the connection behind `token` still has to echo, to be
    /// handed to the socket write; empty exactly when the connection is
    /// not write-pending. Fails with `InvalidIdentity` when `token` is
    /// stale or unknown.
    pub fn pending_chunk(&self, token: usize) -> (r: Result<Vec<u8>, SlotError>)
        requires
            self.wf(),
        ensures
            r is Err <==> !self@.dom().contains(token as int),
            r is Err ==> r == Err::<Vec<u8>, SlotError>(SlotError::InvalidIdentity),
            r matches Ok(v) ==> v@ == self@[token as int].pending(),
    {
        match self.conns.get(token) {
            None => Err(SlotError::InvalidIdentity),
            Some(c) => match &c.phase {
                Phase::ReadPending => {
                    let v: Vec<u8> = Vec::new();
                    proof {
                        assert(v@ =~= c.pending());
                    }
                    Ok(v)
                },
                Phase::WritePending(b) => {
                    let mut out: Vec<u8> = Vec::new();
                    let mut i = b.cursor;
                    let n = b.data.len();
                    while i < n
                        invariant
                            b.wf(),
                            n == b.data@.len(),
                            b.cursor <= i <= n,
                            out@ == b.data@.subrange(b.cursor as int, i as int),
                        decreases n - i,
                    {
                        out.push(b.data[i]);
                        proof {
                            assert(b.data@.subrange(b.cursor as int, i + 1 as int) =~= b.data@
                                .subrange(b.cursor as int, i as int).push(b.data@[i as int]));
                        }
                        i += 1;
                    }
                    proof {
                        assert(out@ =~= b.remaining());
                    }
                    Ok(out)
                },
            },
        }
    }
}

/// Echo fidelity, at the dispatcher level: every live connection's
/// received history is exactly its echoed history followed by its
/// still-pending bytes, and a read-pending connection has echoed
/// everything it ever received, byte for byte and in order.
pub proof fn lemma_server_echo_fidelity(s: &EchoServer, token: int)
    requires
        s.wf(),
        s@.dom().contains(token),
    ensures
        s@[token].received@ == s@[token].echoed@ + s@[token].pending(),
        s@[token].is_read_pending() ==> s@[token].received@ == s@[token].echoed@,
{
    crate::conn::lemma_echo_fidelity(s@[token]);
}

/// One-shot non-duplication, at the dispatcher level: a connection that
/// has completed a read and not yet finished echoing it has readable
/// interest cleared, so the one-shot multiplexer dispatches it no
/// further readable event until it has flipped back to read-pending and
/// been reregistered (every reregistration directive is one-shot).
pub proof fn lemma_oneshot_non_duplication(s: &EchoServer, token: int)
    requires
        s.wf(),
        s@.dom().contains(token),
        s@[token].is_write_pending(),
    ensures
        !s@[token].interest.readable,
{
}

/// Identity reuse: once the connection behind `token` is gone, if every
/// lower identity is still live then the next accept is assigned exactly
/// `token` — a freed slot is recycled, and `accept` returns
/// `next_token()`.
pub proof fn lemma_identity_reuse(s: &EchoServer, token: int)
    requires
        s.wf(),
        !s@.dom().contains(token),
        FIRST_CONNECTION_TOKEN <= token < FIRST_CONNECTION_TOKEN + MAX_CONNECTIONS,
        forall|j: int| FIRST_CONNECTION_TOKEN <= j < token ==> s@.dom().contains(j),
    ensures
        s.next_token() == token,
{
    lemma_next_identity_reaches_free(
        s@,
        FIRST_CONNECTION_TOKEN as int,
        FIRST_CONNECTION_TOKEN + MAX_CONNECTIONS as int,
        token,
    );
}

} // verus!
