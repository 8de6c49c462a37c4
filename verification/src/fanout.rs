//! Runs of session steps and of counter changes, and what holds of every
//! run.

use crate::session::{
    count_after_step, count_down, count_up, session_step, BusReceipt, SessionAction,
    SessionEvent, SessionModel,
};
use vstd::prelude::*;

verus! {

/// The session after a run of steps, one for each entry of `events`.
pub open spec fn session_run<E>(s: SessionModel<E>, events: Seq<SessionEvent<E>>) -> SessionModel<
    E,
>
    decreases events.len(),
{
    if events.len() == 0 {
        s
    } else {
        session_step(session_run(s, events.drop_last()), events.last()).0
    }
}

/// The count after the same run, started at `c`.
pub open spec fn count_after_run<E>(
    s: SessionModel<E>,
    events: Seq<SessionEvent<E>>,
    c: u32,
) -> u32
    decreases events.len(),
{
    if events.len() == 0 {
        c
    } else {
        count_after_step(
            session_run(s, events.drop_last()),
            events.last(),
            count_after_run(s, events.drop_last(), c),
        )
    }
}

/// A session that is closed stays closed.
pub proof fn lemma_closed_session_stays_closed<E>(
    s: SessionModel<E>,
    events: Seq<SessionEvent<E>>,
    c: u32,
)
    requires
        !s.open,
    ensures
        session_run(s, events) == s,
        count_after_run(s, events, c) == c,
    decreases events.len(),
{
    if events.len() > 0 {
        lemma_closed_session_stays_closed(s, events.drop_last(), c);
    }
}

/// Over any run of steps the counter goes down exactly once if the run
/// ends the session, and not at all if it does not.
pub proof fn lemma_session_counts_down_once<E>(
    s: SessionModel<E>,
    events: Seq<SessionEvent<E>>,
    c: u32,
)
    requires
        s.open,
    ensures
        count_after_run(s, events, c) == if session_run(s, events).open {
            c
        } else {
            count_down(c)
        },
    decreases events.len(),
{
    if events.len() > 0 {
        lemma_session_counts_down_once(s, events.drop_last(), c);
    }
}

/// The count after a run of changes, `true` for a session that begins and
/// `false` for one that ends.
pub open spec fn count_after_changes(c: u32, changes: Seq<bool>) -> u32
    decreases changes.len(),
{
    if changes.len() == 0 {
        c
    } else if changes.last() {
        count_up(count_after_changes(c, changes.drop_last()))
    } else {
        count_down(count_after_changes(c, changes.drop_last()))
    }
}

/// How many sessions begin in `changes`, less how many end.
pub open spec fn balance(changes: Seq<bool>) -> int
    decreases changes.len(),
{
    if changes.len() == 0 {
        0
    } else if changes.last() {
        balance(changes.drop_last()) + 1
    } else {
        balance(changes.drop_last()) - 1
    }
}

/// The counter follows the balance of the changes, modulo its width.
pub proof fn lemma_count_follows_balance(c: u32, changes: Seq<bool>)
    ensures
        count_after_changes(c, changes) as int == (c + balance(changes)) % 0x1_0000_0000,
    decreases changes.len(),
{
    if changes.len() > 0 {
        lemma_count_follows_balance(c, changes.drop_last());
    }
}

/// When as many sessions have ended as have begun, in whatever order, the
/// counter is back where it started.
pub proof fn lemma_balanced_changes_restore_count(c: u32, changes: Seq<bool>)
    requires
        balance(changes) == 0,
    ensures
        count_after_changes(c, changes) == c,
{
    lemma_count_follows_balance(c, changes);
}

/// The newest event among `receipts`, or `fallback` where they hold none.
pub open spec fn newest<E>(receipts: Seq<BusReceipt<E>>, fallback: Option<E>) -> Option<E>
    decreases receipts.len(),
{
    if receipts.len() == 0 {
        fallback
    } else {
        match receipts.last() {
            BusReceipt::Event(e) => Some(e),
            _ => newest(receipts.drop_last(), fallback),
        }
    }
}

/// The receipts as events of a session.
pub open spec fn as_events<E>(receipts: Seq<BusReceipt<E>>) -> Seq<SessionEvent<E>> {
    Seq::new(receipts.len(), |i: int| SessionEvent::Bus(receipts[i]))
}

/// However many receipts arrive between two pacing ticks, and however
/// many of them report a lag, the slot holds only the newest event.
pub proof fn lemma_slot_holds_newest<E>(s: SessionModel<E>, receipts: Seq<BusReceipt<E>>)
    requires
        s.open,
        forall|i: int| 0 <= i < receipts.len() ==> !(#[trigger] receipts[i] is Closed),
    ensures
        session_run(s, as_events(receipts)) == (SessionModel {
            pending: newest(receipts, s.pending),
            open: true,
        }),
    decreases receipts.len(),
{
    if receipts.len() > 0 {
        let before = receipts.drop_last();
        assert(as_events(receipts).drop_last() =~= as_events(before));
        assert(as_events(receipts).last() == SessionEvent::Bus(receipts.last()));
        assert forall|i: int| 0 <= i < before.len() implies !(#[trigger] before[i] is Closed) by {
            assert(before[i] == receipts[i]);
        }
        lemma_slot_holds_newest(s, before);
        assert(!(receipts[receipts.len() - 1] is Closed));
    }
}

/// A pacing tick after such receipts sends the newest event and nothing
/// else: the slot is empty afterwards, and a second tick sends nothing.
pub proof fn lemma_tick_sends_only_newest<E>(s: SessionModel<E>, receipts: Seq<BusReceipt<E>>)
    requires
        s.open,
        forall|i: int| 0 <= i < receipts.len() ==> !(#[trigger] receipts[i] is Closed),
    ensures
        ({
            let waiting = session_run(s, as_events(receipts));
            let (sent, action) = session_step(waiting, SessionEvent::PacingTick);
            &&& action == match newest(receipts, s.pending) {
                Some(e) => SessionAction::Send(e),
                None => SessionAction::Wait,
            }
            &&& sent == (SessionModel::<E> { pending: None, open: true })
            &&& session_step(sent, SessionEvent::PacingTick) == (sent, SessionAction::<E>::Wait)
        }),
{
    lemma_slot_holds_newest(s, receipts);
}

} // verus!
