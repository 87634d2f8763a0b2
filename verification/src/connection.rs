//! The life of one accepted connection.
//!
//! A `Connection` performs no I/O. It says which socket operation comes next
//! (`Action`), is told how that operation ended (`Event`), and keeps account
//! of what was received and sent. The caller owns the stream, performs each
//! operation within the timeout that the action carries and reports back
//! until `Action::Finished`.

use vstd::prelude::*;
use crate::payload::{REQUEST_CAPACITY, RESPONSE_LEN, response_bytes, response_tail, response_from};

verus! {

/// Where a connection stands.
#[derive(Clone, Copy, Debug, PartialEq, Eq, Structural)]
pub enum Phase {
    /// Obtained from the listening socket; nothing has been asked of it yet.
    Accepted,
    /// The single read of the request is outstanding.
    Reading,
    /// The request was received; the response is being written, flushed or
    /// the stream closed after it.
    Responding,
    /// A read, write or flush failed; the stream is still to be closed.
    Aborted,
    /// The stream is closed. Terminal.
    Closed,
}

/// Why a connection was aborted.
#[derive(Clone, Copy, Debug, PartialEq, Eq, Structural)]
pub enum Failure {
    /// The read failed or timed out. No response was attempted.
    ReadError,
    /// A write or the flush failed or timed out.
    WriteError,
}

/// How a closed connection ended.
#[derive(Clone, Copy, Debug, PartialEq, Eq, Structural)]
pub enum Outcome {
    /// The whole response was written and flushed before the close.
    Completed,
    /// Handling was given up for the reason held.
    Aborted(Failure),
}

/// The socket operation that a connection asks for.
#[derive(Clone, Copy, Debug, PartialEq, Eq, Structural)]
pub enum Action {
    /// Read once, at most `capacity` bytes, within `timeout_ms` milliseconds.
    Read { capacity: usize, timeout_ms: u64 },
    /// Write the response from byte `offset` on, once, within `timeout_ms`
    /// milliseconds.
    Write { offset: usize, timeout_ms: u64 },
    /// Flush buffered output within `timeout_ms` milliseconds.
    Flush { timeout_ms: u64 },
    /// Close the stream; a failure to close is not reported.
    Close,
    /// Nothing is left to do.
    Finished,
}

/// How a socket operation ended.
#[derive(Clone, Copy, Debug, PartialEq, Eq, Structural)]
pub enum Event {
    /// The read returned `count` bytes; zero when the peer sent nothing
    /// before closing its side.
    ReadDone { count: usize },
    /// The read failed.
    ReadFailed,
    /// The write took `count` bytes.
    Written { count: usize },
    /// The write failed.
    WriteFailed,
    /// The flush succeeded.
    Flushed,
    /// The flush failed.
    FlushFailed,
    /// The operation did not end within the timeout that its action
    /// carried.
    TimedOut,
    /// The close was attempted.
    Closed,
}

/// A connection as the contracts see it.
pub struct ConnectionState {
    pub phase: Phase,
    /// The milliseconds that a read, a write or the flush may take.
    pub timeout_ms: u64,
    /// Bytes of the request that the read returned.
    pub received: nat,
    /// Bytes of the response that the writes have taken so far.
    pub sent: nat,
    /// What the writes have put on the wire, in order.
    pub wire: Seq<u8>,
    /// Whether the flush after the last write succeeded.
    pub flushed: bool,
    /// The failure that aborted the connection, if one did.
    pub failure: Option<Failure>,
}

impl ConnectionState {
    /// A connection as `accept` hands it over, with the timeout that its
    /// operations are held to.
    pub open spec fn fresh(timeout_ms: u64) -> Self {
        ConnectionState {
            phase: Phase::Accepted,
            timeout_ms,
            received: 0,
            sent: 0,
            wire: Seq::empty(),
            flushed: false,
            failure: None,
        }
    }

    /// What holds of every connection that started fresh with a timeout of
    /// at least one millisecond.
    pub open spec fn wf(self) -> bool {
        &&& self.timeout_ms >= 1
        &&& self.received <= REQUEST_CAPACITY
        &&& self.sent <= RESPONSE_LEN
        &&& self.wire == response_bytes().take(self.sent as int)
        &&& (self.flushed ==> self.sent == RESPONSE_LEN && self.failure is None)
        &&& (self.failure == Some(Failure::ReadError) ==> self.sent == 0 && self.received == 0)
        &&& match self.phase {
            Phase::Accepted | Phase::Reading => {
                self.received == 0 && self.sent == 0 && self.failure is None
            },
            Phase::Responding => self.failure is None,
            Phase::Aborted => self.failure is Some,
            Phase::Closed => self.failure is None ==> self.flushed,
        }
    }

    /// The operation that the connection waits for, or would ask for first.
    pub open spec fn pending(self) -> Action {
        match self.phase {
            Phase::Accepted | Phase::Reading => {
                Action::Read { capacity: REQUEST_CAPACITY, timeout_ms: self.timeout_ms }
            },
            Phase::Responding => {
                if self.sent < RESPONSE_LEN {
                    Action::Write { offset: self.sent as usize, timeout_ms: self.timeout_ms }
                } else if !self.flushed {
                    Action::Flush { timeout_ms: self.timeout_ms }
                } else {
                    Action::Close
                }
            },
            Phase::Aborted => Action::Close,
            Phase::Closed => Action::Finished,
        }
    }

    /// Whether `event` is a way in which the outstanding operation can end.
    /// Nothing is outstanding before `begun` and after the close.
    pub open spec fn answers(self, event: Event) -> bool {
        match self.phase {
            Phase::Accepted | Phase::Closed => false,
            Phase::Reading => {
                event is ReadDone || event is ReadFailed || event is TimedOut
            },
            Phase::Responding => {
                match self.pending() {
                    Action::Write { .. } => {
                        event is Written || event is WriteFailed || event is TimedOut
                    },
                    Action::Flush { .. } => {
                        event is Flushed || event is FlushFailed || event is TimedOut
                    },
                    _ => event is Closed,
                }
            },
            Phase::Aborted => event is Closed,
        }
    }

    /// The connection given up for `failure`; what was sent stays on record.
    pub open spec fn aborted(self, failure: Failure) -> Self {
        ConnectionState { phase: Phase::Aborted, failure: Some(failure), ..self }
    }

    /// The connection once its handler has taken it up: an accepted one is
    /// reading, any other is unchanged.
    pub open spec fn begun(self) -> Self {
        if self.phase == Phase::Accepted {
            ConnectionState { phase: Phase::Reading, ..self }
        } else {
            self
        }
    }

    /// The connection after `event`.
    ///
    /// An event that does not answer the outstanding operation changes
    /// nothing. A read of at most `REQUEST_CAPACITY` bytes, none included,
    /// starts the response. A write is offered the response from `sent` on;
    /// one that took between one byte and all of them has put those on the
    /// wire. A flush completes the response. A reported failure, a timeout, a
    /// read of more than the capacity, and a write of nothing or of more than
    /// was offered abort the connection. A close ends it.
    pub open spec fn after(self, event: Event) -> Self {
        if !self.answers(event) {
            self
        } else {
            match self.phase {
                Phase::Reading => {
                    match event {
                        Event::ReadDone { count } if count <= REQUEST_CAPACITY => {
                            ConnectionState {
                                phase: Phase::Responding,
                                received: count as nat,
                                ..self
                            }
                        },
                        _ => self.aborted(Failure::ReadError),
                    }
                },
                Phase::Responding => {
                    match event {
                        Event::Written { count } if 0 < count && count + self.sent
                            <= RESPONSE_LEN => {
                            ConnectionState {
                                sent: self.sent + count as nat,
                                wire: self.wire + response_tail(self.sent).take(count as int),
                                ..self
                            }
                        },
                        Event::Flushed => ConnectionState { flushed: true, ..self },
                        Event::Closed => ConnectionState { phase: Phase::Closed, ..self },
                        _ => self.aborted(Failure::WriteError),
                    }
                },
                _ => ConnectionState { phase: Phase::Closed, ..self },
            }
        }
    }

    /// The connection after each of `events` in turn.
    pub open spec fn run(self, events: Seq<Event>) -> Self
        decreases events.len(),
    {
        if events.len() == 0 {
            self
        } else {
            self.after(events[0]).run(events.skip(1))
        }
    }

    /// How the connection ended, once it is closed.
    pub open spec fn outcome(self) -> Option<Outcome> {
        if self.phase != Phase::Closed {
            None
        } else {
            match self.failure {
                None => Some(Outcome::Completed),
                Some(failure) => Some(Outcome::Aborted(failure)),
            }
        }
    }

    /// An upper bound on the operations that are still to come.
    pub open spec fn steps_left(self) -> nat {
        match self.phase {
            Phase::Accepted => (RESPONSE_LEN + 4) as nat,
            Phase::Reading => (RESPONSE_LEN + 3) as nat,
            Phase::Responding => {
                (RESPONSE_LEN - self.sent + (if self.flushed { 1int } else { 2int })) as nat
            },
            Phase::Aborted => 1,
            Phase::Closed => 0,
        }
    }
}

/// A fresh connection is valid: nothing is on the wire.
pub proof fn lemma_fresh_is_wf(timeout_ms: u64)
    requires
        timeout_ms >= 1,
    ensures
        ConnectionState::fresh(timeout_ms).wf(),
        ConnectionState::fresh(timeout_ms).begun().wf(),
{
    assert(response_bytes().take(0) =~= Seq::<u8>::empty());
}

/// The bytes that were on the wire after `sent` of them, and those that a
/// write of `count` took of the rest, are the first `sent + count` bytes of
/// the response.
pub proof fn lemma_write_extends_wire(sent: nat, count: nat)
    requires
        sent + count <= RESPONSE_LEN,
    ensures
        response_bytes().take(sent as int) + response_tail(sent).take(count as int)
            == response_bytes().take((sent + count) as int),
{
    assert(response_bytes().take(sent as int) + response_tail(sent).take(count as int)
        =~= response_bytes().take((sent + count) as int));
}

/// One accepted connection, from the accept to the close.
#[derive(Debug)]
pub struct Connection {
    phase: Phase,
    timeout_ms: u64,
    received: usize,
    sent: usize,
    flushed: bool,
    failure: Option<Failure>,
}

impl View for Connection {
    type V = ConnectionState;

    closed spec fn view(&self) -> ConnectionState {
        ConnectionState {
            phase: self.phase,
            timeout_ms: self.timeout_ms,
            received: self.received as nat,
            sent: self.sent as nat,
            wire: response_bytes().take(self.sent as int),
            flushed: self.flushed,
            failure: self.failure,
        }
    }
}

impl Connection {
    #[verifier::type_invariant]
    spec fn inv(self) -> bool {
        self@.wf()
    }

    /// A connection as `accept` hands it over, each of whose reads and
    /// writes may take `timeout_ms` milliseconds. No operation may block
    /// without bound: with a timeout of zero there is no connection.
    pub fn new(timeout_ms: u64) -> (made: Option<Connection>)
        ensures
            made is None <==> timeout_ms == 0,
            made matches Some(c) ==> c@ == ConnectionState::fresh(timeout_ms) && c@.wf(),
    {
        if timeout_ms == 0 {
            None
        } else {
            proof {
                lemma_fresh_is_wf(timeout_ms);
            }
            Some(
                Connection {
                    phase: Phase::Accepted,
                    timeout_ms,
                    received: 0,
                    sent: 0,
                    flushed: false,
                    failure: None,
                },
            )
        }
    }

    /// Takes the connection up and asks for its first operation. A
    /// connection is taken up once: a later call changes nothing and repeats
    /// what is outstanding.
    pub fn begin(&mut self) -> (action: Action)
        ensures
            final(self)@ == old(self)@.begun(),
            final(self)@.wf(),
            action == final(self)@.pending(),
    {
        proof {
            use_type_invariant(&*self);
        }
        if self.phase == Phase::Accepted {
            self.phase = Phase::Reading;
        }
        self.pending()
    }

    /// Takes note of how an operation ended and asks for the next one.
    pub fn on_event(&mut self, event: Event) -> (action: Action)
        ensures
            final(self)@ == old(self)@.after(event),
            final(self)@.wf(),
            action == final(self)@.pending(),
    {
        proof {
            use_type_invariant(&*self);
        }
        match self.phase {
            Phase::Accepted | Phase::Closed => {},
            Phase::Reading => {
                match event {
                    Event::ReadDone { count } => {
                        if count <= REQUEST_CAPACITY {
                            self.phase = Phase::Responding;
                            self.received = count;
                        } else {
                            self.abort(Failure::ReadError);
                        }
                    },
                    Event::ReadFailed | Event::TimedOut => {
                        self.abort(Failure::ReadError);
                    },
                    _ => {},
                }
            },
            Phase::Responding => {
                if self.sent < RESPONSE_LEN {
                    match event {
                        Event::Written { count } => {
                            if 0 < count && count <= RESPONSE_LEN - self.sent {
                                proof {
                                    lemma_write_extends_wire(self.sent as nat, count as nat);
                                }
                                self.sent = self.sent + count;
                            } else {
                                self.abort(Failure::WriteError);
                            }
                        },
                        Event::WriteFailed | Event::TimedOut => {
                            self.abort(Failure::WriteError);
                        },
                        _ => {},
                    }
                } else if !self.flushed {
                    match event {
                        Event::Flushed => {
                            self.flushed = true;
                        },
                        Event::FlushFailed | Event::TimedOut => {
                            self.abort(Failure::WriteError);
                        },
                        _ => {},
                    }
                } else {
                    match event {
                        Event::Closed => {
                            self.phase = Phase::Closed;
                        },
                        _ => {},
                    }
                }
            },
            Phase::Aborted => {
                match event {
                    Event::Closed => {
                        self.phase = Phase::Closed;
                    },
                    _ => {},
                }
            },
        }
        self.pending()
    }

    fn abort(&mut self, failure: Failure)
        requires
            old(self)@.wf(),
            old(self)@.phase == Phase::Reading || (old(self)@.phase == Phase::Responding
                && !old(self)@.flushed),
            old(self)@.phase == Phase::Reading ==> failure == Failure::ReadError,
            old(self)@.phase == Phase::Responding ==> failure == Failure::WriteError,
        ensures
            final(self)@ == old(self)@.aborted(failure),
            final(self)@.wf(),
    {
        *self = Connection {
            phase: Phase::Aborted,
            timeout_ms: self.timeout_ms,
            received: self.received,
            sent: self.sent,
            flushed: self.flushed,
            failure: Some(failure),
        };
    }

    /// The operation that is outstanding, or that would come first.
    pub fn pending(&self) -> (action: Action)
        ensures
            action == self@.pending(),
    {
        match self.phase {
            Phase::Accepted | Phase::Reading => {
                Action::Read { capacity: REQUEST_CAPACITY, timeout_ms: self.timeout_ms }
            },
            Phase::Responding => {
                if self.sent < RESPONSE_LEN {
                    Action::Write { offset: self.sent, timeout_ms: self.timeout_ms }
                } else if !self.flushed {
                    Action::Flush { timeout_ms: self.timeout_ms }
                } else {
                    Action::Close
                }
            },
            Phase::Aborted => Action::Close,
            Phase::Closed => Action::Finished,
        }
    }

    /// The milliseconds that a read, a write or the flush may take.
    pub fn timeout_ms(&self) -> (timeout_ms: u64)
        ensures
            timeout_ms == self@.timeout_ms,
            timeout_ms >= 1,
    {
        proof {
            use_type_invariant(self);
        }
        self.timeout_ms
    }

    /// Where the connection stands.
    pub fn phase(&self) -> (phase: Phase)
        ensures
            phase == self@.phase,
    {
        self.phase
    }

    /// Bytes of the request that the read returned.
    pub fn received(&self) -> (n: usize)
        ensures
            n == self@.received,
            n <= REQUEST_CAPACITY,
    {
        proof {
            use_type_invariant(self);
        }
        self.received
    }

    /// Bytes of the response written so far.
    pub fn sent(&self) -> (n: usize)
        ensures
            n == self@.sent,
            n <= RESPONSE_LEN,
    {
        proof {
            use_type_invariant(self);
        }
        self.sent
    }

    /// The bytes of the response that are still to be written.
    pub fn unsent(&self) -> (bytes: Vec<u8>)
        ensures
            bytes@ == response_tail(self@.sent),
            self@.wire + bytes@ == response_bytes(),
    {
        proof {
            use_type_invariant(self);
            crate::payload::lemma_tail_completes_prefix(self@.sent);
        }
        response_from(self.sent)
    }

    /// Whether the stream is closed.
    pub fn is_closed(&self) -> (closed: bool)
        ensures
            closed == (self@.phase == Phase::Closed),
    {
        self.phase == Phase::Closed
    }

    /// How the connection ended; `None` until it is closed.
    pub fn outcome(&self) -> (outcome: Option<Outcome>)
        ensures
            outcome == self@.outcome(),
    {
        if self.phase != Phase::Closed {
            None
        } else {
            match self.failure {
                None => Some(Outcome::Completed),
                Some(failure) => Some(Outcome::Aborted(failure)),
            }
        }
    }
}

} // verus!
