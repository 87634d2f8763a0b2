//! The accepting loop.
//!
//! A `Listener` performs no I/O either. It says what the loop does next
//! (`ListenerAction`) and is told what happened (`ListenerEvent`): how the
//! bind and each accept ended, that a handler finished, that shutdown was
//! signalled. It keeps count of the connections that are being handled,
//! never lets more than its limit be open at once, and gives each of them
//! the timeout that its operations are held to.

use vstd::prelude::*;
use crate::connection::{Connection, ConnectionState, Phase};

verus! {

/// Where the accepting loop stands.
#[derive(Clone, Copy, Debug, PartialEq, Eq, Structural)]
pub enum ListenerPhase {
    /// No socket is bound yet.
    Unbound,
    /// The listening socket is bound and connections are accepted.
    Listening,
    /// Shutdown was signalled; handlers that are still at work are awaited.
    Draining,
    /// Nothing is open any more. Terminal.
    Stopped,
    /// The bind failed. Terminal: without a bound socket the loop cannot run.
    Failed,
}

/// What the accepting loop is asked to do.
#[derive(Clone, Copy, Debug, PartialEq, Eq, Structural)]
pub enum ListenerAction {
    /// Bind the listening socket.
    Bind,
    /// Wait for the next peer.
    Accept,
    /// Hand the connection just accepted to a handler of its own, then go
    /// on with what is pending.
    Dispatch,
    /// Wait until a handler finishes.
    AwaitHandler,
    /// Close the listening socket, then go on with what is pending.
    CloseListener,
    /// Leave the loop: everything is closed.
    Finished,
    /// Leave the process: the bind error is fatal.
    Exit,
}

/// What the accepting loop is told.
#[derive(Clone, Copy, Debug, PartialEq, Eq, Structural)]
pub enum ListenerEvent {
    /// The bind succeeded.
    Bound,
    /// The bind failed: a bind error.
    BindFailed,
    /// An accept returned a connection.
    Accepted,
    /// An accept failed: an accept error.
    AcceptFailed,
    /// A handler is done with its connection, which is closed.
    HandlerFinished,
    /// Shutdown was signalled.
    Shutdown,
}

/// An accepting loop as the contracts see it.
pub struct ListenerState {
    pub phase: ListenerPhase,
    /// The most connections that may be open at once.
    pub limit: nat,
    /// The milliseconds that each read and write of a connection may take.
    pub timeout_ms: u64,
    /// The connections that were accepted and whose handler has not finished.
    pub in_flight: nat,
}

impl ListenerState {
    /// A loop that has not bound its socket.
    pub open spec fn unbound(limit: nat, timeout_ms: u64) -> Self {
        ListenerState { phase: ListenerPhase::Unbound, limit, timeout_ms, in_flight: 0 }
    }

    /// What holds of every loop that started unbound with a limit of at
    /// least one connection and a timeout of at least one millisecond.
    pub open spec fn wf(self) -> bool {
        &&& 1 <= self.limit
        &&& 1 <= self.timeout_ms
        &&& self.in_flight <= self.limit
        &&& match self.phase {
            ListenerPhase::Listening => true,
            ListenerPhase::Draining => self.in_flight >= 1,
            _ => self.in_flight == 0,
        }
    }

    /// Whether a further connection may be opened.
    pub open spec fn has_room(self) -> bool {
        self.in_flight < self.limit
    }

    /// What the loop does when nothing else is asked of it.
    pub open spec fn pending(self) -> ListenerAction {
        match self.phase {
            ListenerPhase::Unbound => ListenerAction::Bind,
            ListenerPhase::Listening => {
                if self.has_room() {
                    ListenerAction::Accept
                } else {
                    ListenerAction::AwaitHandler
                }
            },
            ListenerPhase::Draining => ListenerAction::AwaitHandler,
            ListenerPhase::Stopped => ListenerAction::Finished,
            ListenerPhase::Failed => ListenerAction::Exit,
        }
    }

    /// Whether `event` can occur where the loop stands. The outcome of a
    /// bind is taken only while unbound, that of an accept only while
    /// listening with room, the end of a handler only while one is at
    /// work, and shutdown until it was signalled or the bind failed.
    pub open spec fn takes(self, event: ListenerEvent) -> bool {
        match self.phase {
            ListenerPhase::Unbound => {
                event is Bound || event is BindFailed || event is Shutdown
            },
            ListenerPhase::Listening => {
                match event {
                    ListenerEvent::Accepted | ListenerEvent::AcceptFailed => self.has_room(),
                    ListenerEvent::HandlerFinished => self.in_flight >= 1,
                    ListenerEvent::Shutdown => true,
                    _ => false,
                }
            },
            ListenerPhase::Draining => event is HandlerFinished,
            _ => false,
        }
    }

    /// The loop with its listening socket given up: stopped if no handler
    /// is at work, draining otherwise.
    pub open spec fn wound_down(self) -> Self {
        ListenerState {
            phase: if self.in_flight == 0 {
                ListenerPhase::Stopped
            } else {
                ListenerPhase::Draining
            },
            ..self
        }
    }

    /// The loop after `event`.
    ///
    /// An event that the loop does not take changes nothing, and a failed
    /// accept changes nothing either. A successful bind starts the
    /// listening, a failed one ends everything. An accepted connection
    /// counts as open until its handler finishes. Shutdown gives up the
    /// listening socket; the loop stops once the last handler has finished.
    pub open spec fn after(self, event: ListenerEvent) -> Self {
        if !self.takes(event) {
            self
        } else {
            match event {
                ListenerEvent::Bound => ListenerState { phase: ListenerPhase::Listening, ..self },
                ListenerEvent::BindFailed => ListenerState { phase: ListenerPhase::Failed, ..self },
                ListenerEvent::Accepted => ListenerState { in_flight: self.in_flight + 1, ..self },
                ListenerEvent::AcceptFailed => self,
                ListenerEvent::HandlerFinished => {
                    let fewer = ListenerState { in_flight: (self.in_flight - 1) as nat, ..self };
                    if self.phase == ListenerPhase::Draining {
                        fewer.wound_down()
                    } else {
                        fewer
                    }
                },
                ListenerEvent::Shutdown => self.wound_down(),
            }
        }
    }

    /// What the loop is asked to do in answer to `event`: to dispatch a
    /// connection that it took, to close the listening socket where shutdown
    /// ends the listening, and otherwise what is pending after the event.
    pub open spec fn reply(self, event: ListenerEvent) -> ListenerAction {
        if self.takes(event) && event is Accepted {
            ListenerAction::Dispatch
        } else if self.phase == ListenerPhase::Listening && event is Shutdown {
            ListenerAction::CloseListener
        } else {
            self.after(event).pending()
        }
    }

    /// The loop after each of `events` in turn.
    pub open spec fn run(self, events: Seq<ListenerEvent>) -> Self
        decreases events.len(),
    {
        if events.len() == 0 {
            self
        } else {
            self.after(events[0]).run(events.skip(1))
        }
    }

    /// The sockets that the loop accounts for once its last action was
    /// performed: the listening socket while listening, and one for each
    /// connection whose handler has not finished.
    pub open spec fn open_sockets(self) -> nat {
        self.in_flight + if self.phase == ListenerPhase::Listening {
            1nat
        } else {
            0nat
        }
    }
}

/// The accepting loop's decisions and its count of open connections.
#[derive(Debug)]
pub struct Listener {
    phase: ListenerPhase,
    limit: usize,
    timeout_ms: u64,
    in_flight: usize,
}

impl View for Listener {
    type V = ListenerState;

    closed spec fn view(&self) -> ListenerState {
        ListenerState {
            phase: self.phase,
            limit: self.limit as nat,
            timeout_ms: self.timeout_ms,
            in_flight: self.in_flight as nat,
        }
    }
}

impl Listener {
    #[verifier::type_invariant]
    spec fn inv(self) -> bool {
        self@.wf()
    }

    /// A loop that will keep at most `limit` connections open at once, each
    /// with reads and writes of at most `timeout_ms` milliseconds. With a
    /// limit of zero no connection could ever be accepted, and with a timeout
    /// of zero none would be bounded: there is no such loop.
    pub fn new(limit: usize, timeout_ms: u64) -> (made: Option<Listener>)
        ensures
            made is None <==> limit == 0 || timeout_ms == 0,
            made matches Some(listener) ==> listener@ == ListenerState::unbound(
                limit as nat,
                timeout_ms,
            ) && listener@.wf(),
    {
        if limit == 0 || timeout_ms == 0 {
            None
        } else {
            Some(Listener { phase: ListenerPhase::Unbound, limit, timeout_ms, in_flight: 0 })
        }
    }

    /// The state of a connection that the loop dispatches: fresh, with the
    /// loop's timeout. It shares nothing with the loop or with any other
    /// connection.
    pub fn connection(&self) -> (c: Connection)
        ensures
            c@ == ConnectionState::fresh(self@.timeout_ms),
            c@.wf(),
    {
        proof {
            use_type_invariant(self);
        }
        Connection::new(self.timeout_ms).unwrap()
    }

    /// Takes note of `event` and says what to do about it.
    pub fn on_event(&mut self, event: ListenerEvent) -> (action: ListenerAction)
        ensures
            final(self)@ == old(self)@.after(event),
            final(self)@.wf(),
            action == old(self)@.reply(event),
    {
        proof {
            use_type_invariant(&*self);
        }
        match (self.phase, event) {
            (ListenerPhase::Unbound, ListenerEvent::Bound) => {
                self.phase = ListenerPhase::Listening;
                self.pending()
            },
            (ListenerPhase::Unbound, ListenerEvent::BindFailed) => {
                self.phase = ListenerPhase::Failed;
                ListenerAction::Exit
            },
            (ListenerPhase::Unbound, ListenerEvent::Shutdown) => {
                self.phase = ListenerPhase::Stopped;
                ListenerAction::Finished
            },
            (ListenerPhase::Listening, ListenerEvent::Accepted) => {
                if self.in_flight < self.limit {
                    self.in_flight = self.in_flight + 1;
                    ListenerAction::Dispatch
                } else {
                    self.pending()
                }
            },
            (ListenerPhase::Listening, ListenerEvent::HandlerFinished) => {
                if self.in_flight >= 1 {
                    self.in_flight = self.in_flight - 1;
                }
                self.pending()
            },
            (ListenerPhase::Listening, ListenerEvent::Shutdown) => {
                self.wind_down(self.in_flight);
                ListenerAction::CloseListener
            },
            (ListenerPhase::Draining, ListenerEvent::HandlerFinished) => {
                self.wind_down(self.in_flight - 1);
                self.pending()
            },
            _ => self.pending(),
        }
    }

    /// Takes a connection back from its handler. A closed one frees its
    /// place, as `ListenerEvent::HandlerFinished` does. One that is not
    /// closed still holds its socket: it is handed back and nothing changes.
    pub fn release(&mut self, connection: Connection) -> (taken: Result<ListenerAction, Connection>)
        ensures
            final(self)@.wf(),
            connection@.phase == Phase::Closed ==> final(self)@ == old(self)@.after(
                ListenerEvent::HandlerFinished,
            ),
            connection@.phase == Phase::Closed ==> (taken matches Ok(action) && action == old(
                self,
            )@.reply(ListenerEvent::HandlerFinished)),
            connection@.phase != Phase::Closed ==> final(self)@ == old(self)@,
            connection@.phase != Phase::Closed ==> (taken matches Err(back) && back == connection),
    {
        proof {
            use_type_invariant(&*self);
        }
        if connection.is_closed() {
            Ok(self.on_event(ListenerEvent::HandlerFinished))
        } else {
            Err(connection)
        }
    }

    /// Gives up the listening socket with `remaining` handlers still at
    /// work.
    fn wind_down(&mut self, remaining: usize)
        requires
            old(self)@.wf(),
            remaining <= old(self)@.in_flight,
        ensures
            final(self)@ == (ListenerState {
                in_flight: remaining as nat,
                ..old(self)@
            }).wound_down(),
            final(self)@.wf(),
    {
        *self = Listener {
            phase: if remaining == 0 {
                ListenerPhase::Stopped
            } else {
                ListenerPhase::Draining
            },
            limit: self.limit,
            timeout_ms: self.timeout_ms,
            in_flight: remaining,
        };
    }

    /// What the loop does when nothing else is asked of it.
    pub fn pending(&self) -> (action: ListenerAction)
        ensures
            action == self@.pending(),
    {
        match self.phase {
            ListenerPhase::Unbound => ListenerAction::Bind,
            ListenerPhase::Listening => {
                if self.in_flight < self.limit {
                    ListenerAction::Accept
                } else {
                    ListenerAction::AwaitHandler
                }
            },
            ListenerPhase::Draining => ListenerAction::AwaitHandler,
            ListenerPhase::Stopped => ListenerAction::Finished,
            ListenerPhase::Failed => ListenerAction::Exit,
        }
    }

    /// Where the loop stands.
    pub fn phase(&self) -> (phase: ListenerPhase)
        ensures
            phase == self@.phase,
    {
        self.phase
    }

    /// The most connections that may be open at once.
    pub fn limit(&self) -> (limit: usize)
        ensures
            limit == self@.limit,
            limit >= 1,
    {
        proof {
            use_type_invariant(self);
        }
        self.limit
    }

    /// The milliseconds that each read and write of a connection may take.
    pub fn timeout_ms(&self) -> (timeout_ms: u64)
        ensures
            timeout_ms == self@.timeout_ms,
            timeout_ms >= 1,
    {
        proof {
            use_type_invariant(self);
        }
        self.timeout_ms
    }

    /// The connections whose handler has not finished.
    pub fn in_flight(&self) -> (n: usize)
        ensures
            n == self@.in_flight,
            n <= self@.limit,
    {
        proof {
            use_type_invariant(self);
        }
        self.in_flight
    }

    /// Whether the listening socket is open.
    pub fn is_listening(&self) -> (listening: bool)
        ensures
            listening == (self@.phase == ListenerPhase::Listening),
            listening ==> self@.open_sockets() == self@.in_flight + 1,
            !listening ==> self@.open_sockets() == self@.in_flight,
    {
        self.phase == ListenerPhase::Listening
    }
}

} // verus!
