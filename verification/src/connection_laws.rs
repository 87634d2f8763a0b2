//! What holds of every connection, whatever the peer and the sockets do.

use vstd::prelude::*;
use crate::payload::{REQUEST_CAPACITY, RESPONSE_LEN, response_bytes};
use crate::connection::{
    lemma_fresh_is_wf, lemma_write_extends_wire, Action, ConnectionState, Event, Failure,
    Outcome, Phase,
};

verus! {

/// Whether each of `events`, in turn, answers the operation that is
/// outstanding when it comes.
pub open spec fn all_answered(s: ConnectionState, events: Seq<Event>) -> bool
    decreases events.len(),
{
    events.len() == 0 || (s.answers(events[0]) && all_answered(
        s.after(events[0]),
        events.skip(1),
    ))
}

/// Whether `event` reports a failed operation or a timeout.
pub open spec fn is_failure(event: Event) -> bool {
    event is ReadFailed || event is WriteFailed || event is FlushFailed || event is TimedOut
}

/// Taking a connection up and any one event keep it valid.
pub proof fn lemma_step_preserves_wf(s: ConnectionState, event: Event)
    requires
        s.wf(),
    ensures
        s.begun().wf(),
        s.after(event).wf(),
{
    if let Event::Written { count } = event {
        if s.sent + count <= RESPONSE_LEN {
            lemma_write_extends_wire(s.sent, count as nat);
        }
    }
}

/// Any sequence of events keeps a connection valid.
pub proof fn lemma_run_preserves_wf(s: ConnectionState, events: Seq<Event>)
    requires
        s.wf(),
    ensures
        s.run(events).wf(),
    decreases events.len(),
{
    if events.len() > 0 {
        lemma_step_preserves_wf(s, events[0]);
        lemma_run_preserves_wf(s.after(events[0]), events.skip(1));
    }
}

/// Whether what the writes of `s` have put on the wire is what its peer is
/// owed: a prefix of the response and no other byte; the whole response,
/// flushed, where the connection completed; nothing where its read failed.
pub open spec fn wire_is_sound(s: ConnectionState) -> bool {
    &&& s.wire.is_prefix_of(response_bytes())
    &&& (s.sent == RESPONSE_LEN ==> s.wire == response_bytes())
    &&& (s.outcome() == Some(Outcome::Completed) ==> s.wire == response_bytes() && s.flushed)
    &&& (s.failure == Some(Failure::ReadError) ==> s.wire == Seq::<u8>::empty())
}

/// Whatever happens on a connection, what its writes have put on the wire,
/// piece by piece, is a prefix of the response and no other byte. A
/// connection that completed has sent exactly the response, flushed before
/// the close; one whose read failed has sent nothing.
pub proof fn lemma_peer_gets_response_or_prefix(timeout_ms: u64, events: Seq<Event>)
    requires
        timeout_ms >= 1,
    ensures
        wire_is_sound(ConnectionState::fresh(timeout_ms).begun().run(events)),
{
    let end = ConnectionState::fresh(timeout_ms).begun().run(events);
    lemma_fresh_is_wf(timeout_ms);
    lemma_run_preserves_wf(ConnectionState::fresh(timeout_ms).begun(), events);
    if end.sent == RESPONSE_LEN {
        assert(end.wire =~= response_bytes());
    }
    if end.sent == 0 {
        assert(end.wire =~= Seq::<u8>::empty());
    }
}

/// The same of any number of connections at once: they share no state, so
/// each of them has sent a prefix of the response, and the whole of it where
/// it completed.
pub proof fn lemma_every_peer_gets_response_or_prefix(timeout_ms: u64, traces: Seq<Seq<Event>>)
    requires
        timeout_ms >= 1,
    ensures
        forall|i: int|
            0 <= i < traces.len() ==> wire_is_sound(
                #[trigger] ConnectionState::fresh(timeout_ms).begun().run(traces[i]),
            ),
{
    assert forall|i: int| 0 <= i < traces.len() implies wire_is_sound(
        #[trigger] ConnectionState::fresh(timeout_ms).begun().run(traces[i]),
    ) by {
        lemma_peer_gets_response_or_prefix(timeout_ms, traces[i]);
    }
}

/// Two connections that differ only in how much they received stay so.
proof fn lemma_received_is_carried(a: ConnectionState, b: ConnectionState, events: Seq<Event>)
    requires
        a.phase != Phase::Accepted,
        a.phase != Phase::Reading,
        a == (ConnectionState { received: a.received, ..b }),
    ensures
        a.run(events) == (ConnectionState { received: a.received, ..b.run(events) }),
    decreases events.len(),
{
    if events.len() > 0 {
        lemma_received_is_carried(a.after(events[0]), b.after(events[0]), events.skip(1));
    }
}

/// The size of the request, none at all included, has no part in what
/// follows: after a read of any size within the capacity the response is
/// written from its first byte, and the same later events lead to the same
/// bytes sent, the same phase, the same outcome and the same next operation.
pub proof fn lemma_request_size_is_ignored(
    timeout_ms: u64,
    first: usize,
    second: usize,
    rest: Seq<Event>,
)
    requires
        timeout_ms >= 1,
        first <= REQUEST_CAPACITY,
        second <= REQUEST_CAPACITY,
    ensures
        ({
            let reading = ConnectionState::fresh(timeout_ms).begun();
            let a = reading.after(Event::ReadDone { count: first });
            let b = reading.after(Event::ReadDone { count: second });
            &&& a.phase == Phase::Responding
            &&& a.pending() == (Action::Write { offset: 0, timeout_ms })
            &&& b.pending() == a.pending()
            &&& a.run(rest).wire == b.run(rest).wire
            &&& a.run(rest).phase == b.run(rest).phase
            &&& a.run(rest).outcome() == b.run(rest).outcome()
            &&& a.run(rest).pending() == b.run(rest).pending()
        }),
{
    let reading = ConnectionState::fresh(timeout_ms).begun();
    let a = reading.after(Event::ReadDone { count: first });
    let b = reading.after(Event::ReadDone { count: second });
    lemma_received_is_carried(a, b, rest);
}

/// A failed or timed-out operation aborts the connection and nothing else:
/// no further byte is sent, the close is what comes next, and after it the
/// connection is closed with the failure on record: a read error where the
/// read failed, a write error where a write or the flush did.
pub proof fn lemma_failure_aborts_then_closes(s: ConnectionState, event: Event)
    requires
        s.wf(),
        s.answers(event),
        is_failure(event),
    ensures
        ({
            let failure = if s.phase == Phase::Reading {
                Failure::ReadError
            } else {
                Failure::WriteError
            };
            let aborted = s.after(event);
            &&& aborted.phase == Phase::Aborted
            &&& aborted.failure == Some(failure)
            &&& aborted.sent == s.sent
            &&& aborted.wire == s.wire
            &&& aborted.pending() == Action::Close
            &&& aborted.after(Event::Closed).outcome() == Some(Outcome::Aborted(failure))
            &&& aborted.after(Event::Closed).wire == s.wire
        }),
{
}

/// An event that answers the outstanding operation brings the connection
/// strictly nearer to its close; any other event changes nothing.
pub proof fn lemma_answer_makes_progress(s: ConnectionState, event: Event)
    requires
        s.wf(),
    ensures
        s.answers(event) ==> s.after(event).steps_left() < s.steps_left(),
        !s.answers(event) ==> s.after(event) == s,
        s.steps_left() <= RESPONSE_LEN + 4,
        (s.steps_left() == 0) == (s.phase == Phase::Closed),
        (s.pending() == Action::Finished) == (s.phase == Phase::Closed),
{
}

/// Handling is bounded: a connection answers no more operations than its
/// bound says, so a handler that is taken up performs at most
/// `RESPONSE_LEN + 3` of them before the stream is closed.
pub proof fn lemma_handling_is_bounded(s: ConnectionState, events: Seq<Event>)
    requires
        s.wf(),
        all_answered(s, events),
    ensures
        events.len() + s.run(events).steps_left() <= s.steps_left(),
        s.phase == Phase::Reading ==> events.len() <= RESPONSE_LEN + 3,
    decreases events.len(),
{
    if events.len() > 0 {
        lemma_step_preserves_wf(s, events[0]);
        lemma_answer_makes_progress(s, events[0]);
        lemma_handling_is_bounded(s.after(events[0]), events.skip(1));
    }
}

/// Every operation that a connection asks for is held to its timeout, and
/// the timeout never changes.
pub proof fn lemma_every_operation_is_bounded(s: ConnectionState, events: Seq<Event>)
    requires
        s.wf(),
    ensures
        s.run(events).timeout_ms == s.timeout_ms,
        s.timeout_ms >= 1,
        (match s.run(events).pending() {
            Action::Read { timeout_ms, .. } => timeout_ms == s.timeout_ms,
            Action::Write { timeout_ms, .. } => timeout_ms == s.timeout_ms,
            Action::Flush { timeout_ms } => timeout_ms == s.timeout_ms,
            _ => true,
        }),
    decreases events.len(),
{
    if events.len() > 0 {
        lemma_step_preserves_wf(s, events[0]);
        lemma_every_operation_is_bounded(s.after(events[0]), events.skip(1));
    }
}

/// A connection that was taken up is never stuck. A read, a write and the
/// flush end with their timeout at the latest, which aborts the connection;
/// the close ends it, whether it follows the response or a failure.
pub proof fn lemma_never_stuck(s: ConnectionState)
    requires
        s.wf(),
        s.phase != Phase::Accepted,
        s.phase != Phase::Closed,
    ensures
        s.pending() != Action::Close ==> s.answers(Event::TimedOut) && s.after(
            Event::TimedOut,
        ).phase == Phase::Aborted,
        s.pending() == Action::Close ==> s.answers(Event::Closed) && s.after(Event::Closed).phase
            == Phase::Closed,
        s.pending() != Action::Finished,
{
}

/// A connection is taken up once: whatever follows, it is never again as
/// `accept` handed it over, and taking it up a second time changes nothing.
pub proof fn lemma_taken_up_once(s: ConnectionState, events: Seq<Event>)
    ensures
        s.begun().run(events).phase != Phase::Accepted,
        s.begun().run(events).begun() == s.begun().run(events),
    decreases events.len(),
{
    if events.len() > 0 {
        let next = s.begun().after(events[0]);
        assert(next.begun() == next);
        lemma_taken_up_once(next, events.skip(1));
    }
}

/// A closed connection is used up: no event brings it back.
pub proof fn lemma_closed_is_terminal(s: ConnectionState, events: Seq<Event>)
    requires
        s.phase == Phase::Closed,
    ensures
        s.run(events) == s,
        s.begun() == s,
    decreases events.len(),
{
    if events.len() > 0 {
        lemma_closed_is_terminal(s, events.skip(1));
    }
}

} // verus!
