//! Whole ticks and runs of ticks of the activation controller, and what
//! holds of every run.

use crate::activation::{
    deactivation, next_tick, on_capture_acquired, on_frontmost_app, on_handlers_registered,
    on_tick, ActivationState, Command, FOCUS_CHECK_INTERVAL,
};
use vstd::prelude::*;

verus! {

/// What the collaborators answer during one tick: the number of
/// subscribers, whether the frontmost application is a target, the status
/// of registering the callbacks, and the handle of the acquisition.
#[derive(Debug, Clone, Copy)]
pub struct Replies {
    pub subscribers: u32,
    pub target_focused: bool,
    pub handler_status: i16,
    pub capture_handle: u16,
}

impl Replies {
    /// There is a subscriber, a target is in front, and the device
    /// collaborator grants what is asked of it.
    pub open spec fn favourable(self) -> bool {
        &&& self.subscribers > 0
        &&& self.target_focused
        &&& self.handler_status == 0
        &&& self.capture_handle != 0
    }
}

/// One whole tick: the tick itself and every step that its commands ask
/// an answer for, each answered from `r`.
pub open spec fn whole_tick(s: ActivationState, r: Replies) -> (ActivationState, Seq<Command>) {
    let (s1, c1) = on_tick(s, r.subscribers);
    if !(s1.stage is AwaitingFrontmostApp) {
        (s1, c1)
    } else {
        let (s2, c2) = on_frontmost_app(s1, r.target_focused);
        if !(s2.stage is AwaitingHandlers) {
            (s2, c1 + c2)
        } else {
            let (s3, c3) = on_handlers_registered(s2, r.handler_status);
            if !(s3.stage is AwaitingCapture) {
                (s3, c1 + c2 + c3)
            } else {
                let (s4, c4) = on_capture_acquired(s3, r.capture_handle);
                (s4, c1 + c2 + c3 + c4)
            }
        }
    }
}

/// The state after a run of whole ticks, one for each entry of `rs`.
pub open spec fn run(s: ActivationState, rs: Seq<Replies>) -> ActivationState
    decreases rs.len(),
{
    if rs.len() == 0 {
        s
    } else {
        whole_tick(run(s, rs.drop_last()), rs.last()).0
    }
}

/// How many ticks pass before the one that runs the focus check.
pub open spec fn ticks_before_check(s: ActivationState) -> int {
    (FOCUS_CHECK_INTERVAL - s.ticks % FOCUS_CHECK_INTERVAL) % (FOCUS_CHECK_INTERVAL as int)
}

/// How often `c` occurs in `commands`.
pub open spec fn occurrences(commands: Seq<Command>, c: Command) -> nat
    decreases commands.len(),
{
    if commands.len() == 0 {
        0
    } else {
        occurrences(commands.drop_last(), c) + if commands.last() == c {
            1nat
        } else {
            0nat
        }
    }
}

/// A whole tick from a valid state that awaits nothing ends in such a
/// state again, with the tick counted.
pub proof fn lemma_whole_tick_settles(s: ActivationState, r: Replies)
    requires
        s.wf(),
        s.stage is Idle,
    ensures
        whole_tick(s, r).0.wf(),
        whole_tick(s, r).0.stage is Idle,
        whole_tick(s, r).0.ticks == next_tick(s.ticks),
{
}

/// Every run from a valid state that awaits nothing ends in such a state:
/// a handle is held exactly while active.
pub proof fn lemma_run_keeps_valid(s: ActivationState, rs: Seq<Replies>)
    requires
        s.wf(),
        s.stage is Idle,
    ensures
        run(s, rs).wf(),
        run(s, rs).stage is Idle,
    decreases rs.len(),
{
    if rs.len() > 0 {
        lemma_run_keeps_valid(s, rs.drop_last());
        lemma_whole_tick_settles(run(s, rs.drop_last()), rs.last());
    }
}

/// Without a subscriber at any tick the controller never becomes active,
/// whatever application is in front and whatever the device collaborator
/// would answer.
pub proof fn lemma_no_subscriber_never_active(s: ActivationState, rs: Seq<Replies>)
    requires
        s.wf(),
        s.stage is Idle,
        !s.active,
        forall|i: int| 0 <= i < rs.len() ==> (#[trigger] rs[i]).subscribers == 0,
    ensures
        !run(s, rs).active,
    decreases rs.len(),
{
    if rs.len() > 0 {
        let before = rs.drop_last();
        assert forall|i: int| 0 <= i < before.len() implies (#[trigger] before[i]).subscribers
            == 0 by {
            assert(before[i] == rs[i]);
        }
        lemma_no_subscriber_never_active(s, before);
        lemma_run_keeps_valid(s, before);
    }
}

/// While active under favourable answers a whole tick changes nothing but
/// the tick count, and commands nothing but the focus query, where it is
/// due, and the renewal.
pub proof fn lemma_active_tick_is_idempotent(s: ActivationState, r: Replies)
    requires
        s.wf(),
        s.stage is Idle,
        s.active,
        r.favourable(),
    ensures
        whole_tick(s, r).0 == (ActivationState {
            ticks: next_tick(s.ticks),
            has_subscribers: whole_tick(s, r).0.has_subscribers,
            ..s
        }),
        whole_tick(s, r).1 == if s.ticks % FOCUS_CHECK_INTERVAL == 0 {
            seq![Command::QueryFrontmostApp, Command::RefreshCapture { handle: s.handle }]
        } else {
            seq![Command::RefreshCapture { handle: s.handle }]
        },
{
    let commands = whole_tick(s, r).1;
    if s.ticks % FOCUS_CHECK_INTERVAL == 0 {
        assert(commands =~= seq![
            Command::QueryFrontmostApp,
            Command::RefreshCapture { handle: s.handle },
        ]);
    } else {
        assert(commands =~= seq![Command::RefreshCapture { handle: s.handle }]);
    }
}

/// Under favourable answers at every tick, a run is active once it is as
/// long as one check interval, and stays so however long it goes on.
pub proof fn lemma_favourable_run_is_active(s: ActivationState, rs: Seq<Replies>)
    requires
        s.wf(),
        s.stage is Idle,
        forall|i: int| 0 <= i < rs.len() ==> (#[trigger] rs[i]).favourable(),
        rs.len() >= FOCUS_CHECK_INTERVAL,
    ensures
        run(s, rs).active,
{
    lemma_favourable_run_progress(s, rs);
}

/// Under favourable answers a run that is not yet active has only moved
/// toward the tick that runs the focus check.
pub proof fn lemma_favourable_run_progress(s: ActivationState, rs: Seq<Replies>)
    requires
        s.wf(),
        s.stage is Idle,
        forall|i: int| 0 <= i < rs.len() ==> (#[trigger] rs[i]).favourable(),
    ensures
        run(s, rs).active || ticks_before_check(run(s, rs)) + rs.len() == ticks_before_check(s),
    decreases rs.len(),
{
    if rs.len() > 0 {
        let before = rs.drop_last();
        assert forall|i: int| 0 <= i < before.len() implies (#[trigger] before[i]).favourable() by {
            assert(before[i] == rs[i]);
        }
        lemma_favourable_run_progress(s, before);
        lemma_run_keeps_valid(s, before);
        let mid = run(s, before);
        assert(rs.last() == rs[rs.len() - 1]);
        assert(rs.last().favourable());
        if mid.active {
            lemma_active_tick_is_idempotent(mid, rs.last());
        }
    }
}

/// A deactivation leaves the controller inactive without a handle, and
/// commands the reset of the smoothing and the event at rest once each,
/// the event last.
pub proof fn lemma_deactivation_publishes_rest_once(s: ActivationState)
    ensures
        !deactivation(s).0.active,
        deactivation(s).0.handle == 0,
        occurrences(deactivation(s).1, Command::BroadcastRest) == 1,
        occurrences(deactivation(s).1, Command::ResetSmoothing) == 1,
        deactivation(s).1.last() == Command::BroadcastRest,
{
    let commands = deactivation(s).1;
    reveal_with_fuel(occurrences, 5);
    if s.handle != 0 {
        let c3 = commands.drop_last();
        let c2 = c3.drop_last();
        let c1 = c2.drop_last();
        let c0 = c1.drop_last();
        assert(c0.len() == 0);
    } else {
        let c1 = commands.drop_last();
        let c0 = c1.drop_last();
        assert(c0.len() == 0);
    }
}

/// The tick that finds the device captured without a subscriber or
/// without a target in front deactivates: its commands are the focus
/// query and then those of the deactivation, with no renewal after them.
pub proof fn lemma_unfavourable_check_deactivates(s: ActivationState, r: Replies)
    requires
        s.wf(),
        s.stage is Idle,
        s.active,
        s.ticks % FOCUS_CHECK_INTERVAL == 0,
        r.subscribers == 0 || !r.target_focused,
    ensures
        !whole_tick(s, r).0.active,
        whole_tick(s, r).0.handle == 0,
        whole_tick(s, r).1 == seq![Command::QueryFrontmostApp] + deactivation(s).1,
{
    let (s1, c1) = on_tick(s, r.subscribers);
    let (s2, c2) = on_frontmost_app(s1, r.target_focused);
    assert(deactivation(s1).1 == deactivation(s).1);
    assert(c2 =~= deactivation(s).1);
}

} // verus!
