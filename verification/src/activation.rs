//! The activation controller: decides on a fixed cadence whether the device
//! is captured, from the number of subscribers and the frontmost
//! application.
//!
//! The controller performs no side effect itself. Each step takes what just
//! happened and returns the commands to carry out, in order; a command that
//! has an answer is the last of its list, and the answer is handed to the
//! step named for it.

use crate::device::{
    kConnexionClientManual, kConnexionClientModeTakeOver, kConnexionMaskAll,
    kConnexionMaskAllButtons,
};
use crate::focus::{is_allowed, is_target_app_frontmost};
use vstd::prelude::*;

verus! {

/// The focus check runs on every tick whose number is a multiple of this.
pub const FOCUS_CHECK_INTERVAL: u32 = 8;

/// A side effect against a collaborator.
#[derive(Debug, Clone, Copy, PartialEq, Eq, Structural)]
pub enum Command {
    /// Ask for the frontmost application's identifier; answered to
    /// `frontmost_app`.
    QueryFrontmostApp,
    /// Register the device event callbacks; the status is answered to
    /// `handlers_registered`.
    RegisterHandlers,
    /// Acquire the capture; the handle is answered to `capture_acquired`.
    AcquireCapture { signature: u32, mode: u16, mask: u32 },
    /// Select the buttons that the capture delivers.
    SetButtonMask { handle: u16, mask: u32 },
    /// Renew the capture, which lapses silently otherwise.
    RefreshCapture { handle: u16 },
    /// Give the capture back.
    ReleaseCapture { handle: u16 },
    /// Remove the device event callbacks.
    UnregisterHandlers,
    /// Set the smoothed state of every axis to zero.
    ResetSmoothing,
    /// Publish one event with every axis at zero and no button held.
    BroadcastRest,
}

/// The answer that the controller is waiting for.
#[derive(Debug, Clone, Copy, PartialEq, Eq, Structural)]
pub enum Stage {
    Idle,
    AwaitingFrontmostApp,
    AwaitingHandlers,
    AwaitingCapture,
}

/// What the controller knows between two steps.
#[derive(Debug, Clone, Copy, PartialEq, Eq, Structural)]
pub struct ActivationState {
    /// Whether the device is captured.
    pub active: bool,
    /// The capture handle; zero stands for none.
    pub handle: u16,
    /// Number of the next tick, wrapping.
    pub ticks: u32,
    /// The answer awaited.
    pub stage: Stage,
    /// Whether there was a subscriber at the tick that started the check.
    pub has_subscribers: bool,
}

impl ActivationState {
    /// A handle is held exactly while active, and an acquisition is under
    /// way only while inactive.
    pub open spec fn wf(self) -> bool {
        &&& self.active <==> self.handle != 0
        &&& (self.stage is AwaitingHandlers || self.stage is AwaitingCapture) ==> !self.active
    }

    /// The state at start: inactive, no handle, nothing awaited.
    pub open spec fn initial() -> ActivationState {
        ActivationState {
            active: false,
            handle: 0,
            ticks: 0,
            stage: Stage::Idle,
            has_subscribers: false,
        }
    }
}

/// The renewal owed at the end of a tick: one refresh while active.
pub open spec fn keep_alive(s: ActivationState) -> Seq<Command> {
    if s.handle != 0 && s.active {
        seq![Command::RefreshCapture { handle: s.handle }]
    } else {
        seq![]
    }
}

/// The tick number after `ticks`, wrapping at the width of the counter.
pub open spec fn next_tick(ticks: u32) -> u32 {
    if ticks == u32::MAX {
        0
    } else {
        (ticks + 1) as u32
    }
}

/// A tick of the base timer. On a tick whose number is a multiple of the
/// check interval the focus check begins; on any other only the renewal is
/// owed. A tick while an answer is awaited changes nothing.
pub open spec fn on_tick(s: ActivationState, subscribers: u32) -> (ActivationState, Seq<Command>) {
    if !(s.stage is Idle) {
        (s, seq![])
    } else if s.ticks % FOCUS_CHECK_INTERVAL == 0 {
        (
            ActivationState {
                ticks: next_tick(s.ticks),
                stage: Stage::AwaitingFrontmostApp,
                has_subscribers: subscribers > 0,
                ..s
            },
            seq![Command::QueryFrontmostApp],
        )
    } else {
        let t = ActivationState { ticks: next_tick(s.ticks), ..s };
        (t, keep_alive(t))
    }
}

/// The start of an acquisition.
pub open spec fn activation(s: ActivationState) -> (ActivationState, Seq<Command>) {
    (ActivationState { stage: Stage::AwaitingHandlers, ..s }, seq![Command::RegisterHandlers])
}

/// The deactivation: the capture is given back if one is held, the
/// smoothed state is reset, and one event at rest is published.
pub open spec fn deactivation(s: ActivationState) -> (ActivationState, Seq<Command>) {
    let t = ActivationState { active: false, handle: 0, ..s };
    if s.handle != 0 {
        (
            t,
            seq![
                Command::ReleaseCapture { handle: s.handle },
                Command::UnregisterHandlers,
                Command::ResetSmoothing,
                Command::BroadcastRest,
            ],
        )
    } else {
        (t, seq![Command::ResetSmoothing, Command::BroadcastRest])
    }
}

/// The answer to the focus query. The device should be captured when
/// there was a subscriber and the frontmost application is a target; a
/// change of that against the present state starts the acquisition or
/// deactivates, and no change leaves only the renewal.
pub open spec fn on_frontmost_app(s: ActivationState, target_focused: bool) -> (
    ActivationState,
    Seq<Command>,
) {
    if !(s.stage is AwaitingFrontmostApp) {
        (s, seq![])
    } else {
        let should_be_active = s.has_subscribers && target_focused;
        if should_be_active && !s.active {
            activation(s)
        } else if !should_be_active && s.active {
            let (t, commands) = deactivation(s);
            let u = ActivationState { stage: Stage::Idle, ..t };
            (u, commands + keep_alive(u))
        } else {
            let u = ActivationState { stage: Stage::Idle, ..s };
            (u, keep_alive(u))
        }
    }
}

/// The answer to the registration of the callbacks: any status but zero
/// ends the attempt, zero goes on to acquire the capture.
pub open spec fn on_handlers_registered(s: ActivationState, status: i16) -> (
    ActivationState,
    Seq<Command>,
) {
    if !(s.stage is AwaitingHandlers) {
        (s, seq![])
    } else if status != 0 {
        let u = ActivationState { stage: Stage::Idle, ..s };
        (u, keep_alive(u))
    } else {
        (
            ActivationState { stage: Stage::AwaitingCapture, ..s },
            seq![
                Command::AcquireCapture {
                    signature: kConnexionClientManual,
                    mode: kConnexionClientModeTakeOver,
                    mask: kConnexionMaskAll,
                },
            ],
        )
    }
}

/// The answer to the acquisition: without a handle the callbacks are
/// removed again; with one the controller is active, selects all buttons,
/// activates the capture and renews it for this tick.
pub open spec fn on_capture_acquired(s: ActivationState, handle: u16) -> (
    ActivationState,
    Seq<Command>,
) {
    if !(s.stage is AwaitingCapture) {
        (s, seq![])
    } else if handle == 0 {
        let u = ActivationState { stage: Stage::Idle, ..s };
        (u, seq![Command::UnregisterHandlers] + keep_alive(u))
    } else {
        let u = ActivationState { active: true, handle: handle, stage: Stage::Idle, ..s };
        (
            u,
            seq![
                Command::SetButtonMask { handle: handle, mask: kConnexionMaskAllButtons },
                Command::RefreshCapture { handle: handle },
            ] + keep_alive(u),
        )
    }
}

/// The end of the process: a capture that is held is given back.
pub open spec fn on_shutdown(s: ActivationState) -> (ActivationState, Seq<Command>) {
    let t = ActivationState { active: false, handle: 0, stage: Stage::Idle, ..s };
    if s.handle != 0 {
        (t, seq![Command::ReleaseCapture { handle: s.handle }, Command::UnregisterHandlers])
    } else {
        (t, seq![])
    }
}

/// The activation controller. Its state changes only through the steps
/// below.
#[derive(Debug, Clone, Copy)]
pub struct ActivationController {
    state: ActivationState,
}

impl View for ActivationController {
    type V = ActivationState;

    closed spec fn view(&self) -> ActivationState {
        self.state
    }
}

impl ActivationController {
    /// A controller at start.
    pub fn new() -> (r: ActivationController)
        ensures
            r@ == ActivationState::initial(),
            r@.wf(),
    {
        ActivationController {
            state: ActivationState {
                active: false,
                handle: 0,
                ticks: 0,
                stage: Stage::Idle,
                has_subscribers: false,
            },
        }
    }

    /// The present state.
    pub fn state(&self) -> (r: ActivationState)
        ensures
            r == self@,
    {
        self.state
    }

    /// Whether the device is captured.
    pub fn is_active(&self) -> (r: bool)
        ensures
            r == self@.active,
    {
        self.state.active
    }

    /// The capture handle, zero for none.
    pub fn client_id(&self) -> (r: u16)
        ensures
            r == self@.handle,
    {
        self.state.handle
    }

    fn push_keep_alive(&self, commands: &mut Vec<Command>)
        ensures
            final(commands)@ == old(commands)@ + keep_alive(self@),
    {
        if self.state.handle != 0 && self.state.active {
            commands.push(Command::RefreshCapture { handle: self.state.handle });
        }
        assert(commands@ =~= old(commands)@ + keep_alive(self@));
    }

    /// A tick of the base timer, with the number of subscribers at that
    /// moment.
    pub fn runloop_timer_callback(&mut self, subscribers: u32) -> (commands: Vec<Command>)
        ensures
            old(self)@.wf() ==> final(self)@.wf(),
            (final(self)@, commands@) == on_tick(old(self)@, subscribers),
    {
        let mut commands: Vec<Command> = Vec::new();
        match self.state.stage {
            Stage::Idle => {},
            _ => {
                assert(commands@ =~= seq![]);
                return commands;
            },
        }
        let tick: u32 = self.state.ticks;
        self.state.ticks = if tick == u32::MAX {
            0
        } else {
            tick + 1
        };
        if tick % FOCUS_CHECK_INTERVAL == 0 {
            self.state.stage = Stage::AwaitingFrontmostApp;
            self.state.has_subscribers = subscribers > 0;
            commands.push(Command::QueryFrontmostApp);
            assert(commands@ =~= seq![Command::QueryFrontmostApp]);
        } else {
            self.push_keep_alive(&mut commands);
            assert(commands@ =~= keep_alive(self@));
        }
        commands
    }

    /// Starts an acquisition.
    fn activate_client(&mut self) -> (commands: Vec<Command>)
        ensures
            old(self)@.wf() && !old(self)@.active ==> final(self)@.wf(),
            (final(self)@, commands@) == activation(old(self)@),
    {
        self.state.stage = Stage::AwaitingHandlers;
        let mut commands: Vec<Command> = Vec::new();
        commands.push(Command::RegisterHandlers);
        assert(commands@ =~= seq![Command::RegisterHandlers]);
        commands
    }

    /// Gives the capture back, resets the smoothing and publishes one
    /// event at rest.
    fn deactivate_client(&mut self) -> (commands: Vec<Command>)
        ensures
            old(self)@.wf() ==> final(self)@.wf(),
            (final(self)@, commands@) == deactivation(old(self)@),
    {
        self.state.active = false;
        let handle: u16 = self.state.handle;
        self.state.handle = 0;
        let mut commands: Vec<Command> = Vec::new();
        if handle != 0 {
            commands.push(Command::ReleaseCapture { handle });
            commands.push(Command::UnregisterHandlers);
        }
        commands.push(Command::ResetSmoothing);
        commands.push(Command::BroadcastRest);
        assert(commands@ =~= deactivation(old(self)@).1);
        commands
    }

    /// The answer to the focus query: the identifier of the frontmost
    /// application, `None` where there is none.
    pub fn frontmost_app(&mut self, bundle_id: Option<&[u8]>) -> (commands: Vec<Command>)
        ensures
            old(self)@.wf() ==> final(self)@.wf(),
            (final(self)@, commands@) == on_frontmost_app(
                old(self)@,
                bundle_id is Some && is_allowed((bundle_id->0)@),
            ),
    {
        match self.state.stage {
            Stage::AwaitingFrontmostApp => {},
            _ => {
                let commands: Vec<Command> = Vec::new();
                assert(commands@ =~= seq![]);
                return commands;
            },
        }
        let target_focused = is_target_app_frontmost(bundle_id);
        let should_be_active = self.state.has_subscribers && target_focused;
        if should_be_active && !self.state.active {
            self.activate_client()
        } else if !should_be_active && self.state.active {
            let mut commands = self.deactivate_client();
            self.state.stage = Stage::Idle;
            self.push_keep_alive(&mut commands);
            commands
        } else {
            self.state.stage = Stage::Idle;
            let mut commands: Vec<Command> = Vec::new();
            self.push_keep_alive(&mut commands);
            assert(commands@ =~= keep_alive(self@));
            commands
        }
    }

    /// The answer to the registration of the callbacks: its status.
    pub fn handlers_registered(&mut self, status: i16) -> (commands: Vec<Command>)
        ensures
            old(self)@.wf() ==> final(self)@.wf(),
            (final(self)@, commands@) == on_handlers_registered(old(self)@, status),
    {
        let mut commands: Vec<Command> = Vec::new();
        match self.state.stage {
            Stage::AwaitingHandlers => {},
            _ => {
                assert(commands@ =~= seq![]);
                return commands;
            },
        }
        if status != 0 {
            self.state.stage = Stage::Idle;
            self.push_keep_alive(&mut commands);
            assert(commands@ =~= keep_alive(self@));
        } else {
            self.state.stage = Stage::AwaitingCapture;
            commands.push(
                Command::AcquireCapture {
                    signature: kConnexionClientManual,
                    mode: kConnexionClientModeTakeOver,
                    mask: kConnexionMaskAll,
                },
            );
            assert(commands@ =~= on_handlers_registered(old(self)@, status).1);
        }
        commands
    }

    /// The answer to the acquisition: the handle, zero where it failed.
    pub fn capture_acquired(&mut self, handle: u16) -> (commands: Vec<Command>)
        ensures
            old(self)@.wf() ==> final(self)@.wf(),
            (final(self)@, commands@) == on_capture_acquired(old(self)@, handle),
    {
        let mut commands: Vec<Command> = Vec::new();
        match self.state.stage {
            Stage::AwaitingCapture => {},
            _ => {
                assert(commands@ =~= seq![]);
                return commands;
            },
        }
        self.state.stage = Stage::Idle;
        if handle == 0 {
            commands.push(Command::UnregisterHandlers);
        } else {
            commands.push(Command::SetButtonMask { handle, mask: kConnexionMaskAllButtons });
            self.state.handle = handle;
            commands.push(Command::RefreshCapture { handle });
            self.state.active = true;
        }
        self.push_keep_alive(&mut commands);
        assert(commands@ =~= on_capture_acquired(old(self)@, handle).1);
        commands
    }

    /// The end of the process.
    pub fn shutdown_handler(&mut self) -> (commands: Vec<Command>)
        ensures
            old(self)@.wf() ==> final(self)@.wf(),
            (final(self)@, commands@) == on_shutdown(old(self)@),
    {
        let handle: u16 = self.state.handle;
        self.state.active = false;
        self.state.handle = 0;
        self.state.stage = Stage::Idle;
        let mut commands: Vec<Command> = Vec::new();
        if handle != 0 {
            commands.push(Command::ReleaseCapture { handle });
            commands.push(Command::UnregisterHandlers);
        }
        assert(commands@ =~= on_shutdown(old(self)@).1);
        commands
    }
}

} // verus!
