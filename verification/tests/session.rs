use spacemouse_proxy::session::{
    BusReceipt, Session, SessionAction, SessionEvent, SubscriberCounter, BUS_DEPTH,
    PACING_INTERVAL_MS, WS_PORT,
};

#[test]
fn server_constants_have_their_values() {
    assert_eq!(WS_PORT, 18944);
    assert_eq!(PACING_INTERVAL_MS, 16);
    assert_eq!(BUS_DEPTH, 64);
}

#[test]
fn counter_starts_at_zero() {
    assert_eq!(SubscriberCounter::new().count(), 0);
}

#[test]
fn failed_handshake_gives_no_session_and_counts_nothing() {
    let mut counter = SubscriberCounter::new();
    let session: Option<Session<u32>> = Session::handle_ws_client(false, &mut counter);
    assert!(session.is_none());
    assert_eq!(counter.count(), 0);
}

#[test]
fn handshake_opens_a_counted_session_with_an_empty_slot() {
    let mut counter = SubscriberCounter::new();
    let mut session: Session<u32> = Session::handle_ws_client(true, &mut counter).unwrap();
    assert_eq!(counter.count(), 1);
    assert!(session.is_open());
    assert!(!session.has_pending());
    assert_eq!(session.step(SessionEvent::PacingTick, &mut counter), SessionAction::Wait);
    assert_eq!(counter.count(), 1);
}

#[test]
fn pacing_tick_sends_the_pending_event_once() {
    let mut counter = SubscriberCounter::new();
    let mut session: Session<u32> = Session::handle_ws_client(true, &mut counter).unwrap();
    assert_eq!(
        session.step(SessionEvent::Bus(BusReceipt::Event(5)), &mut counter),
        SessionAction::Wait
    );
    assert!(session.has_pending());
    assert_eq!(session.step(SessionEvent::PacingTick, &mut counter), SessionAction::Send(5));
    assert!(!session.has_pending());
    assert_eq!(session.step(SessionEvent::Sent(true), &mut counter), SessionAction::Wait);
    assert_eq!(session.step(SessionEvent::PacingTick, &mut counter), SessionAction::Wait);
    assert!(session.is_open());
    assert_eq!(counter.count(), 1);
}

#[test]
fn slow_subscriber_receives_only_the_newest_event() {
    let mut counter = SubscriberCounter::new();
    let mut session: Session<usize> = Session::handle_ws_client(true, &mut counter).unwrap();
    for n in 0..(3 * BUS_DEPTH) {
        if n == BUS_DEPTH {
            assert_eq!(
                session.step(SessionEvent::Bus(BusReceipt::Lagged), &mut counter),
                SessionAction::Wait
            );
        }
        assert_eq!(
            session.step(SessionEvent::Bus(BusReceipt::Event(n)), &mut counter),
            SessionAction::Wait
        );
    }
    assert_eq!(
        session.step(SessionEvent::PacingTick, &mut counter),
        SessionAction::Send(3 * BUS_DEPTH - 1)
    );
    assert_eq!(session.step(SessionEvent::PacingTick, &mut counter), SessionAction::Wait);
}

#[test]
fn lag_keeps_the_pending_event() {
    let mut counter = SubscriberCounter::new();
    let mut session: Session<u32> = Session::handle_ws_client(true, &mut counter).unwrap();
    session.step(SessionEvent::Bus(BusReceipt::Event(8)), &mut counter);
    assert_eq!(
        session.step(SessionEvent::Bus(BusReceipt::Lagged), &mut counter),
        SessionAction::Wait
    );
    assert!(session.is_open());
    assert_eq!(session.step(SessionEvent::PacingTick, &mut counter), SessionAction::Send(8));
}

#[test]
fn inbound_frame_is_ignored() {
    let mut counter = SubscriberCounter::new();
    let mut session: Session<u32> = Session::handle_ws_client(true, &mut counter).unwrap();
    session.step(SessionEvent::Bus(BusReceipt::Event(1)), &mut counter);
    assert_eq!(session.step(SessionEvent::InboundFrame, &mut counter), SessionAction::Wait);
    assert!(session.is_open());
    assert!(session.has_pending());
    assert_eq!(counter.count(), 1);
}

#[test]
fn inbound_end_closes_the_session() {
    let mut counter = SubscriberCounter::new();
    let mut session: Session<u32> = Session::handle_ws_client(true, &mut counter).unwrap();
    assert_eq!(session.step(SessionEvent::InboundEnd, &mut counter), SessionAction::Close);
    assert!(!session.is_open());
    assert_eq!(counter.count(), 0);
}

#[test]
fn failed_send_closes_the_session() {
    let mut counter = SubscriberCounter::new();
    let mut session: Session<u32> = Session::handle_ws_client(true, &mut counter).unwrap();
    session.step(SessionEvent::Bus(BusReceipt::Event(1)), &mut counter);
    assert_eq!(session.step(SessionEvent::PacingTick, &mut counter), SessionAction::Send(1));
    assert_eq!(session.step(SessionEvent::Sent(false), &mut counter), SessionAction::Close);
    assert!(!session.is_open());
    assert_eq!(counter.count(), 0);
}

#[test]
fn closed_bus_closes_the_session() {
    let mut counter = SubscriberCounter::new();
    let mut session: Session<u32> = Session::handle_ws_client(true, &mut counter).unwrap();
    assert_eq!(
        session.step(SessionEvent::Bus(BusReceipt::Closed), &mut counter),
        SessionAction::Close
    );
    assert_eq!(counter.count(), 0);
}

#[test]
fn closed_session_counts_down_only_once() {
    let mut counter = SubscriberCounter::new();
    let mut other: Session<u32> = Session::handle_ws_client(true, &mut counter).unwrap();
    let mut session: Session<u32> = Session::handle_ws_client(true, &mut counter).unwrap();
    assert_eq!(counter.count(), 2);
    assert_eq!(session.step(SessionEvent::InboundEnd, &mut counter), SessionAction::Close);
    assert_eq!(counter.count(), 1);
    assert_eq!(session.step(SessionEvent::InboundEnd, &mut counter), SessionAction::Close);
    assert_eq!(session.step(SessionEvent::Sent(false), &mut counter), SessionAction::Close);
    assert_eq!(
        session.step(SessionEvent::Bus(BusReceipt::Closed), &mut counter),
        SessionAction::Close
    );
    assert_eq!(session.step(SessionEvent::PacingTick, &mut counter), SessionAction::Close);
    assert_eq!(
        session.step(SessionEvent::Bus(BusReceipt::Event(3)), &mut counter),
        SessionAction::Close
    );
    assert!(!session.has_pending());
    assert_eq!(counter.count(), 1);
    assert!(other.is_open());
    assert_eq!(other.step(SessionEvent::InboundEnd, &mut counter), SessionAction::Close);
    assert_eq!(counter.count(), 0);
}

#[test]
fn counter_returns_to_zero_after_all_sessions_end() {
    let mut counter = SubscriberCounter::new();
    let mut sessions: Vec<Session<u32>> = Vec::new();
    for _ in 0..10 {
        sessions.push(Session::handle_ws_client(true, &mut counter).unwrap());
    }
    assert_eq!(counter.count(), 10);
    for i in [3usize, 9, 0, 5] {
        assert_eq!(sessions[i].step(SessionEvent::InboundEnd, &mut counter), SessionAction::Close);
    }
    assert_eq!(counter.count(), 6);
    for _ in 0..4 {
        sessions.push(Session::handle_ws_client(true, &mut counter).unwrap());
    }
    assert_eq!(counter.count(), 10);
    for (i, session) in sessions.iter_mut().enumerate() {
        let event = match i % 3 {
            0 => SessionEvent::InboundEnd,
            1 => SessionEvent::Sent(false),
            _ => SessionEvent::Bus(BusReceipt::Closed),
        };
        session.step(event, &mut counter);
    }
    assert_eq!(counter.count(), 0);
    for session in &sessions {
        assert!(!session.is_open());
    }
}

#[test]
fn counter_wraps_below_zero() {
    let mut opened = SubscriberCounter::new();
    let mut other = SubscriberCounter::new();
    let mut session: Session<u32> = Session::handle_ws_client(true, &mut opened).unwrap();
    session.step(SessionEvent::InboundEnd, &mut other);
    assert_eq!(other.count(), u32::MAX);
    assert_eq!(opened.count(), 1);
    let reopened: Option<Session<u32>> = Session::handle_ws_client(true, &mut other);
    assert!(reopened.is_some());
    assert_eq!(other.count(), 0);
}
