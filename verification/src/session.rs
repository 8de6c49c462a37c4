//! The subscriber counter and the per-connection session.
//!
//! A session multiplexes three sources: the event bus, the pacing timer
//! and the peer. The session here decides; the caller waits on the three
//! sources, hands over what came first, and carries out the action.

use vstd::prelude::*;

verus! {

/// Port of the loopback listener.
pub const WS_PORT: u16 = 18944;

/// Milliseconds between two pacing ticks of a session.
pub const PACING_INTERVAL_MS: u64 = 16;

/// Number of events that the bus retains for a slow subscriber.
pub const BUS_DEPTH: usize = 64;

/// The count after one more session, wrapping at the counter's width.
pub open spec fn count_up(c: u32) -> u32 {
    if c == u32::MAX {
        0
    } else {
        (c + 1) as u32
    }
}

/// The count after one session less, wrapping at the counter's width.
pub open spec fn count_down(c: u32) -> u32 {
    if c == 0 {
        u32::MAX
    } else {
        (c - 1) as u32
    }
}

/// The number of live sessions.
#[derive(Debug)]
pub struct SubscriberCounter {
    count: u32,
}

impl View for SubscriberCounter {
    type V = u32;

    closed spec fn view(&self) -> u32 {
        self.count
    }
}

impl SubscriberCounter {
    /// A counter at zero.
    pub fn new() -> (r: SubscriberCounter)
        ensures
            r@ == 0,
    {
        SubscriberCounter { count: 0 }
    }

    /// The number of live sessions.
    pub fn count(&self) -> (r: u32)
        ensures
            r == self@,
    {
        self.count
    }

    fn increment(&mut self)
        ensures
            final(self)@ == count_up(old(self)@),
    {
        self.count = if self.count == u32::MAX {
            0
        } else {
            self.count + 1
        };
    }

    fn decrement(&mut self)
        ensures
            final(self)@ == count_down(old(self)@),
    {
        self.count = if self.count == 0 {
            u32::MAX
        } else {
            self.count - 1
        };
    }
}

/// What a read of the event bus gave.
#[derive(Debug)]
pub enum BusReceipt<E> {
    /// The next event.
    Event(E),
    /// Events were missed; the next read resumes behind them.
    Lagged,
    /// The bus has no producer any more.
    Closed,
}

/// What the three sources of a session can hand over, and the outcome of
/// a send.
#[derive(Debug)]
pub enum SessionEvent<E> {
    /// A read of the event bus returned.
    Bus(BusReceipt<E>),
    /// The pacing timer fired.
    PacingTick,
    /// The send that the session asked for ended; `true` for success.
    Sent(bool),
    /// The peer sent a frame.
    InboundFrame,
    /// The peer closed the connection, or reading from it failed.
    InboundEnd,
}

/// What the caller is to do after a step.
#[derive(Debug, PartialEq, Eq)]
pub enum SessionAction<E> {
    /// Wait for the next event.
    Wait,
    /// Transmit this event to the peer and report the outcome as
    /// `SessionEvent::Sent`.
    Send(E),
    /// Drop the connection: the session is over.
    Close,
}

/// The state of a session: the newest event not yet sent, and whether the
/// session is still counted as a subscriber.
pub struct SessionModel<E> {
    pub pending: Option<E>,
    pub open: bool,
}

/// Whether `event` ends an open session.
pub open spec fn ends_session<E>(event: SessionEvent<E>) -> bool {
    match event {
        SessionEvent::Bus(BusReceipt::Closed) => true,
        SessionEvent::Sent(ok) => !ok,
        SessionEvent::InboundEnd => true,
        _ => false,
    }
}

/// One step of a session. A closed session stays as it is and answers
/// `Close`. An open one keeps the newest event of the bus in its one
/// slot, hands the slot's content out at a pacing tick, and closes on the
/// end of the bus, of the peer, or on a failed send.
pub open spec fn session_step<E>(s: SessionModel<E>, event: SessionEvent<E>) -> (
    SessionModel<E>,
    SessionAction<E>,
) {
    if !s.open {
        (s, SessionAction::Close)
    } else if ends_session(event) {
        (SessionModel { pending: s.pending, open: false }, SessionAction::Close)
    } else {
        match event {
            SessionEvent::Bus(BusReceipt::Event(e)) => (
                SessionModel { pending: Some(e), open: true },
                SessionAction::Wait,
            ),
            SessionEvent::PacingTick => match s.pending {
                Some(e) => (SessionModel { pending: None, open: true }, SessionAction::Send(e)),
                None => (s, SessionAction::Wait),
            },
            _ => (s, SessionAction::Wait),
        }
    }
}

/// The count after a step of a session in state `s`: one less where the
/// step ends the session, unchanged otherwise.
pub open spec fn count_after_step<E>(s: SessionModel<E>, event: SessionEvent<E>, c: u32) -> u32 {
    if s.open && ends_session(event) {
        count_down(c)
    } else {
        c
    }
}

/// One connection's session.
#[derive(Debug)]
pub struct Session<E> {
    latest: Option<E>,
    open: bool,
}

impl<E> View for Session<E> {
    type V = SessionModel<E>;

    closed spec fn view(&self) -> SessionModel<E> {
        SessionModel { pending: self.latest, open: self.open }
    }
}

impl<E> Session<E> {
    /// Begins a session after the handshake. A failed handshake gives no
    /// session and leaves the counter alone; a successful one gives an
    /// open session with an empty slot and counts it.
    pub fn handle_ws_client(handshake_ok: bool, counter: &mut SubscriberCounter) -> (r: Option<
        Session<E>,
    >)
        ensures
            handshake_ok ==> r is Some && (r->0)@ == (SessionModel::<E> {
                pending: None,
                open: true,
            }) && final(counter)@ == count_up(old(counter)@),
            !handshake_ok ==> r is None && final(counter)@ == old(counter)@,
    {
        if handshake_ok {
            counter.increment();
            Some(Session { latest: None, open: true })
        } else {
            None
        }
    }

    /// Whether the session is still counted as a subscriber.
    pub fn is_open(&self) -> (r: bool)
        ensures
            r == self@.open,
    {
        self.open
    }

    /// Whether an event waits to be sent.
    pub fn has_pending(&self) -> (r: bool)
        ensures
            r == self@.pending is Some,
    {
        self.latest.is_some()
    }

    fn close(&mut self, counter: &mut SubscriberCounter)
        requires
            old(self)@.open,
        ensures
            final(self)@ == (SessionModel { pending: old(self)@.pending, open: false }),
            final(counter)@ == count_down(old(counter)@),
    {
        self.open = false;
        counter.decrement();
    }

    /// One step of the session: takes what happened and returns what to
    /// do. The counter goes down by one in the step that ends the
    /// session, and in no other.
    pub fn step(&mut self, event: SessionEvent<E>, counter: &mut SubscriberCounter) -> (action:
        SessionAction<E>)
        ensures
            (final(self)@, action) == session_step(old(self)@, event),
            final(counter)@ == count_after_step(old(self)@, event, old(counter)@),
    {
        if !self.open {
            return SessionAction::Close;
        }
        match event {
            SessionEvent::Bus(BusReceipt::Event(e)) => {
                self.latest = Some(e);
                SessionAction::Wait
            },
            SessionEvent::Bus(BusReceipt::Lagged) => SessionAction::Wait,
            SessionEvent::Bus(BusReceipt::Closed) => {
                self.close(counter);
                SessionAction::Close
            },
            SessionEvent::PacingTick => match self.latest.take() {
                Some(e) => SessionAction::Send(e),
                None => SessionAction::Wait,
            },
            SessionEvent::Sent(ok) => {
                if ok {
                    SessionAction::Wait
                } else {
                    self.close(counter);
                    SessionAction::Close
                }
            },
            SessionEvent::InboundFrame => SessionAction::Wait,
            SessionEvent::InboundEnd => {
                self.close(counter);
                SessionAction::Close
            },
        }
    }
}

} // verus!
