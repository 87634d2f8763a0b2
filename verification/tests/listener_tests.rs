use responder::connection::{Action, Connection, Event, Outcome, Phase};
use responder::listener::{Listener, ListenerAction, ListenerEvent, ListenerPhase};

fn listening(limit: usize) -> Listener {
    let mut listener = Listener::new(limit, 1000).unwrap();
    listener.on_event(ListenerEvent::Bound);
    listener
}

fn open_sockets(listener: &Listener) -> usize {
    listener.in_flight() + if listener.is_listening() { 1 } else { 0 }
}

#[test]
fn listener_without_room_or_timeout_is_refused() {
    assert!(Listener::new(0, 1000).is_none());
    assert!(Listener::new(4, 0).is_none());
    assert!(Listener::new(0, 0).is_none());
    assert!(Listener::new(1, 1).is_some());
    assert!(Listener::new(usize::MAX, u64::MAX).is_some());
}

#[test]
fn new_listener_asks_for_the_bind() {
    let listener = Listener::new(4, 1500).unwrap();
    assert_eq!(listener.phase(), ListenerPhase::Unbound);
    assert_eq!(listener.pending(), ListenerAction::Bind);
    assert_eq!(listener.limit(), 4);
    assert_eq!(listener.timeout_ms(), 1500);
    assert_eq!(listener.in_flight(), 0);
    assert!(!listener.is_listening());
    assert_eq!(open_sockets(&listener), 0);
}

#[test]
fn bound_listener_accepts() {
    let mut listener = Listener::new(4, 1500).unwrap();
    assert_eq!(listener.on_event(ListenerEvent::Bound), ListenerAction::Accept);
    assert_eq!(listener.phase(), ListenerPhase::Listening);
    assert!(listener.is_listening());
    assert_eq!(open_sockets(&listener), 1);
    assert_eq!(listener.on_event(ListenerEvent::Accepted), ListenerAction::Dispatch);
    assert_eq!(listener.in_flight(), 1);
}

#[test]
fn bind_failure_is_fatal() {
    let mut listener = Listener::new(4, 1500).unwrap();
    assert_eq!(listener.on_event(ListenerEvent::BindFailed), ListenerAction::Exit);
    assert_eq!(listener.phase(), ListenerPhase::Failed);
    assert_eq!(listener.pending(), ListenerAction::Exit);
    for event in [
        ListenerEvent::Bound,
        ListenerEvent::BindFailed,
        ListenerEvent::Accepted,
        ListenerEvent::AcceptFailed,
        ListenerEvent::HandlerFinished,
        ListenerEvent::Shutdown,
    ] {
        assert_eq!(listener.on_event(event), ListenerAction::Exit);
        assert_eq!(listener.phase(), ListenerPhase::Failed);
        assert_eq!(open_sockets(&listener), 0);
    }
}

#[test]
fn shutdown_before_the_bind_stops_at_once() {
    let mut listener = Listener::new(4, 1500).unwrap();
    assert_eq!(listener.on_event(ListenerEvent::Shutdown), ListenerAction::Finished);
    assert_eq!(listener.phase(), ListenerPhase::Stopped);
    assert_eq!(listener.on_event(ListenerEvent::Bound), ListenerAction::Finished);
    assert_eq!(listener.phase(), ListenerPhase::Stopped);
}

#[test]
fn unbound_listener_takes_no_connection() {
    let mut listener = Listener::new(4, 1500).unwrap();
    assert_eq!(listener.on_event(ListenerEvent::Accepted), ListenerAction::Bind);
    assert_eq!(listener.on_event(ListenerEvent::AcceptFailed), ListenerAction::Bind);
    assert_eq!(listener.on_event(ListenerEvent::HandlerFinished), ListenerAction::Bind);
    assert_eq!(listener.in_flight(), 0);
    assert_eq!(listener.phase(), ListenerPhase::Unbound);
}

#[test]
fn second_bind_report_is_ignored() {
    let mut listener = listening(2);
    listener.on_event(ListenerEvent::Accepted);
    assert_eq!(listener.on_event(ListenerEvent::Bound), ListenerAction::Accept);
    assert_eq!(listener.on_event(ListenerEvent::BindFailed), ListenerAction::Accept);
    assert_eq!(listener.phase(), ListenerPhase::Listening);
    assert_eq!(listener.in_flight(), 1);
}

#[test]
fn accept_failure_does_not_stop_the_loop() {
    let mut listener = listening(4);
    assert_eq!(listener.on_event(ListenerEvent::AcceptFailed), ListenerAction::Accept);
    assert_eq!(listener.phase(), ListenerPhase::Listening);
    assert_eq!(listener.in_flight(), 0);
    assert_eq!(listener.on_event(ListenerEvent::Accepted), ListenerAction::Dispatch);
    assert_eq!(listener.in_flight(), 1);
    assert_eq!(listener.pending(), ListenerAction::Accept);
}

#[test]
fn many_accept_failures_do_not_stop_the_loop() {
    let mut listener = listening(4);
    listener.on_event(ListenerEvent::Accepted);
    for _ in 0..1000 {
        assert_eq!(listener.on_event(ListenerEvent::AcceptFailed), ListenerAction::Accept);
    }
    assert_eq!(listener.phase(), ListenerPhase::Listening);
    assert_eq!(listener.in_flight(), 1);
    assert_eq!(listener.on_event(ListenerEvent::Accepted), ListenerAction::Dispatch);
    assert_eq!(listener.in_flight(), 2);
}

#[test]
fn listener_waits_at_the_limit() {
    let mut listener = listening(2);
    assert_eq!(listener.on_event(ListenerEvent::Accepted), ListenerAction::Dispatch);
    assert_eq!(listener.pending(), ListenerAction::Accept);
    assert_eq!(listener.on_event(ListenerEvent::Accepted), ListenerAction::Dispatch);
    assert_eq!(listener.pending(), ListenerAction::AwaitHandler);
    assert_eq!(listener.in_flight(), 2);
    // nothing is taken beyond the limit
    assert_eq!(listener.on_event(ListenerEvent::Accepted), ListenerAction::AwaitHandler);
    assert_eq!(listener.on_event(ListenerEvent::AcceptFailed), ListenerAction::AwaitHandler);
    assert_eq!(listener.in_flight(), 2);
    assert_eq!(listener.on_event(ListenerEvent::HandlerFinished), ListenerAction::Accept);
    assert_eq!(listener.in_flight(), 1);
}

#[test]
fn slow_handler_does_not_keep_others_out() {
    let mut listener = listening(3);
    // the first peer stalls: its handler never reports back
    assert_eq!(listener.on_event(ListenerEvent::Accepted), ListenerAction::Dispatch);
    let mut stalled = listener.connection();
    stalled.begin();
    // two more peers are accepted and served meanwhile
    for _ in 0..5 {
        assert_eq!(listener.pending(), ListenerAction::Accept);
        assert_eq!(listener.on_event(ListenerEvent::Accepted), ListenerAction::Dispatch);
        let mut served = listener.connection();
        served.begin();
        served.on_event(Event::ReadDone { count: 10 });
        served.on_event(Event::Written { count: 19 });
        served.on_event(Event::Flushed);
        served.on_event(Event::Closed);
        assert_eq!(served.outcome(), Some(Outcome::Completed));
        listener.on_event(ListenerEvent::HandlerFinished);
    }
    assert_eq!(stalled.phase(), Phase::Reading);
    assert_eq!(listener.in_flight(), 1);
    // the stalled one is given up at its timeout
    assert_eq!(stalled.on_event(Event::TimedOut), Action::Close);
    assert_eq!(stalled.on_event(Event::Closed), Action::Finished);
    assert_eq!(listener.on_event(ListenerEvent::HandlerFinished), ListenerAction::Accept);
    assert_eq!(open_sockets(&listener), 1);
}

#[test]
fn finish_report_without_a_handler_is_ignored() {
    let mut listener = listening(2);
    assert_eq!(listener.on_event(ListenerEvent::HandlerFinished), ListenerAction::Accept);
    assert_eq!(listener.in_flight(), 0);
    assert_eq!(listener.phase(), ListenerPhase::Listening);
}

#[test]
fn dispatched_connection_carries_the_timeout() {
    let listener = Listener::new(2, 750).unwrap();
    let connection: Connection = listener.connection();
    assert_eq!(connection.phase(), Phase::Accepted);
    assert_eq!(connection.timeout_ms(), 750);
    assert_eq!(connection.pending(), Action::Read { capacity: 1024, timeout_ms: 750 });
}

#[test]
fn shutdown_with_nothing_in_flight_stops() {
    let mut listener = listening(2);
    assert_eq!(listener.on_event(ListenerEvent::Shutdown), ListenerAction::CloseListener);
    assert_eq!(listener.phase(), ListenerPhase::Stopped);
    assert_eq!(listener.pending(), ListenerAction::Finished);
    assert_eq!(open_sockets(&listener), 0);
}

#[test]
fn shutdown_waits_for_the_handlers() {
    let mut listener = listening(3);
    listener.on_event(ListenerEvent::Accepted);
    listener.on_event(ListenerEvent::Accepted);
    assert_eq!(listener.on_event(ListenerEvent::Shutdown), ListenerAction::CloseListener);
    assert_eq!(listener.phase(), ListenerPhase::Draining);
    assert_eq!(listener.pending(), ListenerAction::AwaitHandler);
    assert_eq!(open_sockets(&listener), 2);
    // no peer is taken any more
    assert_eq!(listener.on_event(ListenerEvent::Accepted), ListenerAction::AwaitHandler);
    assert_eq!(listener.on_event(ListenerEvent::Shutdown), ListenerAction::AwaitHandler);
    assert_eq!(listener.in_flight(), 2);
    assert_eq!(listener.on_event(ListenerEvent::HandlerFinished), ListenerAction::AwaitHandler);
    assert_eq!(listener.phase(), ListenerPhase::Draining);
    assert_eq!(listener.on_event(ListenerEvent::HandlerFinished), ListenerAction::Finished);
    assert_eq!(listener.phase(), ListenerPhase::Stopped);
    assert_eq!(open_sockets(&listener), 0);
    assert_eq!(listener.on_event(ListenerEvent::HandlerFinished), ListenerAction::Finished);
    assert_eq!(listener.in_flight(), 0);
}

#[test]
fn sockets_return_to_one_after_each_batch() {
    for batch in [1usize, 10, 100] {
        let mut listener = listening(100);
        for taken in 0..batch {
            assert_eq!(listener.on_event(ListenerEvent::Accepted), ListenerAction::Dispatch);
            assert_eq!(open_sockets(&listener), taken + 2);
        }
        for _ in 0..batch {
            listener.on_event(ListenerEvent::HandlerFinished);
        }
        assert_eq!(listener.in_flight(), 0);
        assert_eq!(open_sockets(&listener), 1);
        assert_eq!(listener.pending(), ListenerAction::Accept);
    }
}

#[test]
fn sockets_return_to_one_whether_handlers_succeed_or_abort() {
    let mut listener = listening(4);
    let mut served = 0;
    for peer in 0..100usize {
        if listener.pending() == ListenerAction::AwaitHandler {
            listener.on_event(ListenerEvent::HandlerFinished);
        }
        if peer % 9 == 0 {
            assert_eq!(listener.on_event(ListenerEvent::AcceptFailed), ListenerAction::Accept);
        }
        assert_eq!(listener.on_event(ListenerEvent::Accepted), ListenerAction::Dispatch);
        let mut connection = listener.connection();
        connection.begin();
        match peer % 3 {
            0 => {
                connection.on_event(Event::ReadFailed);
            }
            1 => {
                connection.on_event(Event::ReadDone { count: peer });
                connection.on_event(Event::Written { count: 19 });
                connection.on_event(Event::Flushed);
            }
            _ => {
                connection.on_event(Event::ReadDone { count: 0 });
                connection.on_event(Event::TimedOut);
            }
        }
        assert_eq!(connection.on_event(Event::Closed), Action::Finished);
        assert!(connection.is_closed());
        served += 1;
        assert!(listener.in_flight() <= 4);
    }
    while listener.in_flight() > 0 {
        listener.on_event(ListenerEvent::HandlerFinished);
    }
    assert_eq!(served, 100);
    assert_eq!(open_sockets(&listener), 1);
    assert!(listener.is_listening());
}

#[test]
fn closed_connection_frees_its_place() {
    let mut listener = listening(1);
    assert_eq!(listener.on_event(ListenerEvent::Accepted), ListenerAction::Dispatch);
    assert_eq!(listener.pending(), ListenerAction::AwaitHandler);
    let mut connection = listener.connection();
    connection.begin();
    connection.on_event(Event::ReadDone { count: 64 });
    connection.on_event(Event::Written { count: 19 });
    connection.on_event(Event::Flushed);
    connection.on_event(Event::Closed);
    assert_eq!(listener.release(connection).ok(), Some(ListenerAction::Accept));
    assert_eq!(listener.in_flight(), 0);
    assert_eq!(open_sockets(&listener), 1);
}

#[test]
fn aborted_and_closed_connection_frees_its_place() {
    let mut listener = listening(2);
    listener.on_event(ListenerEvent::Accepted);
    let mut connection = listener.connection();
    connection.begin();
    connection.on_event(Event::TimedOut);
    connection.on_event(Event::Closed);
    assert_eq!(listener.release(connection).ok(), Some(ListenerAction::Accept));
    assert_eq!(listener.in_flight(), 0);
}

#[test]
fn open_connection_is_handed_back() {
    let mut listener = listening(1);
    listener.on_event(ListenerEvent::Accepted);
    let mut connection = listener.connection();
    connection.begin();
    connection.on_event(Event::ReadDone { count: 64 });
    connection.on_event(Event::Written { count: 5 });
    let back = listener.release(connection).unwrap_err();
    assert_eq!(back.phase(), Phase::Responding);
    assert_eq!(back.sent(), 5);
    assert_eq!(back.received(), 64);
    assert_eq!(listener.in_flight(), 1);
    assert_eq!(listener.pending(), ListenerAction::AwaitHandler);
    let aborted = {
        let mut connection = back;
        connection.on_event(Event::WriteFailed);
        connection
    };
    assert_eq!(aborted.phase(), Phase::Aborted);
    let back = listener.release(aborted).unwrap_err();
    assert_eq!(listener.in_flight(), 1);
    let mut closed = back;
    closed.on_event(Event::Closed);
    assert!(listener.release(closed).is_ok());
    assert_eq!(listener.in_flight(), 0);
}

#[test]
fn release_while_draining_stops_after_the_last() {
    let mut listener = listening(2);
    listener.on_event(ListenerEvent::Accepted);
    let mut first = listener.connection();
    listener.on_event(ListenerEvent::Accepted);
    let mut second = listener.connection();
    listener.on_event(ListenerEvent::Shutdown);
    for connection in [&mut first, &mut second] {
        connection.begin();
        connection.on_event(Event::ReadFailed);
        connection.on_event(Event::Closed);
    }
    assert_eq!(listener.release(first).ok(), Some(ListenerAction::AwaitHandler));
    assert_eq!(listener.release(second).ok(), Some(ListenerAction::Finished));
    assert_eq!(listener.phase(), ListenerPhase::Stopped);
}
