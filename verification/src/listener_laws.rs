//! What holds of every accepting loop, whatever the sockets do.

use vstd::prelude::*;
use crate::listener::{ListenerAction, ListenerEvent, ListenerPhase, ListenerState};

verus! {

/// The connections that the loop takes in the course of `events`.
pub open spec fn connections_opened(l: ListenerState, events: Seq<ListenerEvent>) -> nat
    decreases events.len(),
{
    if events.len() == 0 {
        0
    } else {
        connections_opened(l.after(events[0]), events.skip(1)) + if l.takes(events[0])
            && events[0] is Accepted {
            1nat
        } else {
            0nat
        }
    }
}

/// The handlers whose end the loop takes note of in the course of `events`.
pub open spec fn connections_closed(l: ListenerState, events: Seq<ListenerEvent>) -> nat
    decreases events.len(),
{
    if events.len() == 0 {
        0
    } else {
        connections_closed(l.after(events[0]), events.skip(1)) + if l.takes(events[0])
            && events[0] is HandlerFinished {
            1nat
        } else {
            0nat
        }
    }
}

/// Any one event keeps a loop valid.
pub proof fn lemma_step_preserves_wf(l: ListenerState, event: ListenerEvent)
    requires
        l.wf(),
    ensures
        l.after(event).wf(),
        l.after(event).limit == l.limit,
        l.after(event).timeout_ms == l.timeout_ms,
{
}

/// Any sequence of events keeps a loop valid: the connections open at once
/// never exceed the limit.
pub proof fn lemma_run_preserves_wf(l: ListenerState, events: Seq<ListenerEvent>)
    requires
        l.wf(),
    ensures
        l.run(events).wf(),
        l.run(events).limit == l.limit,
        l.run(events).timeout_ms == l.timeout_ms,
        l.run(events).in_flight <= l.limit,
    decreases events.len(),
{
    if events.len() > 0 {
        lemma_step_preserves_wf(l, events[0]);
        lemma_run_preserves_wf(l.after(events[0]), events.skip(1));
    }
}

/// Once the socket is bound the loop listens and asks for an accept; a
/// failed bind ends the loop for good and asks for the exit.
pub proof fn lemma_bind_decides(limit: nat, timeout_ms: u64)
    requires
        limit >= 1,
        timeout_ms >= 1,
    ensures
        ({
            let l = ListenerState::unbound(limit, timeout_ms);
            &&& l.wf()
            &&& l.pending() == ListenerAction::Bind
            &&& l.after(ListenerEvent::Bound).phase == ListenerPhase::Listening
            &&& l.reply(ListenerEvent::Bound) == ListenerAction::Accept
            &&& l.after(ListenerEvent::Bound).open_sockets() == 1
            &&& l.after(ListenerEvent::BindFailed).phase == ListenerPhase::Failed
            &&& l.reply(ListenerEvent::BindFailed) == ListenerAction::Exit
            &&& l.after(ListenerEvent::BindFailed).open_sockets() == 0
        }),
{
}

/// The loop binds once: when the outcome of the bind is known, no further
/// one is taken, so the loop never holds a second listening socket.
pub proof fn lemma_binds_once(l: ListenerState, events: Seq<ListenerEvent>)
    requires
        l.phase != ListenerPhase::Unbound,
    ensures
        l.run(events).phase != ListenerPhase::Unbound,
        !l.run(events).takes(ListenerEvent::Bound),
        !l.run(events).takes(ListenerEvent::BindFailed),
        l.run(events).open_sockets() <= l.run(events).in_flight + 1,
    decreases events.len(),
{
    if events.len() > 0 {
        lemma_binds_once(l.after(events[0]), events.skip(1));
    }
}

/// A loop that has stopped or failed stays as it is.
pub proof fn lemma_end_is_terminal(l: ListenerState, events: Seq<ListenerEvent>)
    requires
        l.phase == ListenerPhase::Stopped || l.phase == ListenerPhase::Failed,
    ensures
        l.run(events) == l,
    decreases events.len(),
{
    if events.len() > 0 {
        lemma_end_is_terminal(l, events.skip(1));
    }
}

/// A failed accept leaves the loop as it was, and the loop asks for the
/// next accept: a connection that comes after the failure is taken and
/// dispatched as if the failure had not been.
pub proof fn lemma_accept_failure_is_survived(l: ListenerState)
    requires
        l.wf(),
        l.phase == ListenerPhase::Listening,
        l.has_room(),
    ensures
        l.after(ListenerEvent::AcceptFailed) == l,
        l.reply(ListenerEvent::AcceptFailed) == ListenerAction::Accept,
        l.after(ListenerEvent::AcceptFailed).reply(ListenerEvent::Accepted)
            == ListenerAction::Dispatch,
        l.after(ListenerEvent::AcceptFailed).after(ListenerEvent::Accepted).in_flight
            == l.in_flight + 1,
{
}

/// Failed accepts, however many and wherever the loop stands, change
/// nothing.
pub proof fn lemma_accept_failures_change_nothing(l: ListenerState, events: Seq<ListenerEvent>)
    requires
        forall|i: int| 0 <= i < events.len() ==> events[i] is AcceptFailed,
    ensures
        l.run(events) == l,
    decreases events.len(),
{
    if events.len() > 0 {
        assert(events[0] is AcceptFailed);
        assert forall|i: int| 0 <= i < events.skip(1).len() implies events.skip(1)[i]
            is AcceptFailed by {
            assert(events.skip(1)[i] == events[i + 1]);
        }
        lemma_accept_failures_change_nothing(l, events.skip(1));
    }
}

/// Whether a peer is accepted depends on the count of open connections
/// alone, not on how far any handler has come: while listening below the
/// limit the loop asks for an accept, takes the connection and dispatches
/// it; at the limit it waits for a handler and nothing else.
pub proof fn lemma_accepts_while_room(l: ListenerState)
    requires
        l.wf(),
        l.phase == ListenerPhase::Listening,
    ensures
        l.has_room() ==> l.pending() == ListenerAction::Accept && l.reply(
            ListenerEvent::Accepted,
        ) == ListenerAction::Dispatch,
        !l.has_room() ==> l.pending() == ListenerAction::AwaitHandler && l.after(
            ListenerEvent::HandlerFinished,
        ).pending() == ListenerAction::Accept,
{
}

/// The loop waits for a handler only while one is at work, and the end of
/// any handler frees a place.
pub proof fn lemma_wait_ends_with_a_handler(l: ListenerState)
    requires
        l.wf(),
        l.pending() == ListenerAction::AwaitHandler,
    ensures
        l.in_flight >= 1,
        l.takes(ListenerEvent::HandlerFinished),
        l.after(ListenerEvent::HandlerFinished).in_flight == l.in_flight - 1,
        l.after(ListenerEvent::HandlerFinished).pending() != ListenerAction::AwaitHandler
            || l.after(ListenerEvent::HandlerFinished).phase == ListenerPhase::Draining,
{
}

/// The open connections are those that were taken and whose handler has
/// not finished.
pub proof fn lemma_connections_are_accounted(l: ListenerState, events: Seq<ListenerEvent>)
    requires
        l.wf(),
    ensures
        l.run(events).in_flight + connections_closed(l, events) == l.in_flight
            + connections_opened(l, events),
    decreases events.len(),
{
    if events.len() > 0 {
        lemma_step_preserves_wf(l, events[0]);
        lemma_connections_are_accounted(l.after(events[0]), events.skip(1));
    }
}

/// When every connection that was taken has been handled to its end, the
/// sockets of a listening loop are back to exactly one, the listening
/// socket; after shutdown or a failed bind none is left.
pub proof fn lemma_sockets_return_to_one(
    limit: nat,
    timeout_ms: u64,
    events: Seq<ListenerEvent>,
)
    requires
        limit >= 1,
        timeout_ms >= 1,
        connections_opened(ListenerState::unbound(limit, timeout_ms), events)
            == connections_closed(ListenerState::unbound(limit, timeout_ms), events),
    ensures
        ({
            let end = ListenerState::unbound(limit, timeout_ms).run(events);
            &&& end.in_flight == 0
            &&& (end.phase == ListenerPhase::Listening ==> end.open_sockets() == 1)
            &&& (end.phase != ListenerPhase::Listening ==> end.open_sockets() == 0)
            &&& end.phase != ListenerPhase::Draining
        }),
{
    let start = ListenerState::unbound(limit, timeout_ms);
    lemma_connections_are_accounted(start, events);
    lemma_run_preserves_wf(start, events);
}

/// Shutdown closes the listening socket at once and the loop stops when
/// the last handler has finished: no connection is accepted after it.
pub proof fn lemma_shutdown_stops_accepting(l: ListenerState, events: Seq<ListenerEvent>)
    requires
        l.wf(),
        l.phase == ListenerPhase::Listening,
    ensures
        l.reply(ListenerEvent::Shutdown) == ListenerAction::CloseListener,
        l.after(ListenerEvent::Shutdown).phase != ListenerPhase::Listening,
        connections_opened(l.after(ListenerEvent::Shutdown), events) == 0,
        l.after(ListenerEvent::Shutdown).run(events).phase != ListenerPhase::Listening,
        l.after(ListenerEvent::Shutdown).run(events).in_flight <= l.in_flight,
{
    lemma_no_accept_once_wound_down(l.after(ListenerEvent::Shutdown), events);
}

/// A loop that does not listen any more opens nothing.
proof fn lemma_no_accept_once_wound_down(l: ListenerState, events: Seq<ListenerEvent>)
    requires
        l.wf(),
        l.phase == ListenerPhase::Draining || l.phase == ListenerPhase::Stopped,
    ensures
        connections_opened(l, events) == 0,
        l.run(events).phase == ListenerPhase::Draining || l.run(events).phase
            == ListenerPhase::Stopped,
        l.run(events).in_flight <= l.in_flight,
    decreases events.len(),
{
    if events.len() > 0 {
        lemma_no_accept_once_wound_down(l.after(events[0]), events.skip(1));
    }
}

} // verus!
