//! The decisions of the playback worker: what each lifecycle event asks of the
//! player, given whether a player exists and whether it is playing. The worker
//! performs the action and keeps the player; this module keeps the phase and the
//! input dispatcher.
use vstd::prelude::*;

use crate::input::{
    joypad_reports, key_step, key_steps, touch_step, InputDispatcher, InputState, KeyEvent,
    PlayerEvent, TouchEvent,
};

verus! {

/// Where playback stands. No player exists before the first surface arrives; after
/// a kill nothing happens any more.
#[derive(PartialEq, Eq, Structural, Clone, Copy, Debug)]
pub enum Phase {
    Uninitialized,
    Running,
    Paused,
    Terminated,
}

impl Phase {
    /// Whether a player exists in this phase.
    pub open spec fn has_player(self) -> bool {
        self == Phase::Running || self == Phase::Paused
    }
}

/// What the host asks of the worker.
#[derive(PartialEq, Eq, Structural, Clone, Copy, Debug)]
#[allow(inconsistent_fields)]
pub enum SessionEvent {
    /// A drawing surface of the given size in pixels is ready.
    AttachSurface { width: u32, height: u32 },
    /// The drawing surface changed its size.
    AdjustSurfaceSize { width: i32, height: i32 },
    /// The drawing surface is gone.
    DetachSurface,
    /// A key report from the host's keyboard.
    HandleKeyEvent(KeyEvent),
    /// Playback ends.
    Kill,
}

/// What the worker does in answer to an event.
#[derive(PartialEq, Eq, Structural, Clone, Copy, Debug)]
pub enum SessionAction {
    /// Load the movie, build a renderer on the surface and a player, and start playing.
    CreatePlayer { width: u32, height: u32 },
    /// Render the existing player onto the new surface and resume playing.
    RecreateSurface { width: u32, height: u32 },
    /// Give the player a new viewport size.
    SetViewport { width: u32, height: u32 },
    /// Stop playing; the player stays.
    Pause,
    /// Hand this event to the player.
    Emit(PlayerEvent),
    /// Leave the loop.
    Exit,
    /// Nothing to do.
    Nothing,
}

/// The next phase, the next input state and the action for `event`.
pub open spec fn session_step(phase: Phase, input: InputState, event: SessionEvent) -> (
    Phase,
    InputState,
    SessionAction,
) {
    if phase == Phase::Terminated {
        (phase, input, SessionAction::Nothing)
    } else {
        match event {
            SessionEvent::Kill => (Phase::Terminated, input, SessionAction::Exit),
            SessionEvent::AttachSurface { width, height } => if phase == Phase::Uninitialized {
                (Phase::Running, input, SessionAction::CreatePlayer { width, height })
            } else {
                (Phase::Running, input, SessionAction::RecreateSurface { width, height })
            },
            SessionEvent::AdjustSurfaceSize { width, height } => if phase.has_player() {
                (
                    phase,
                    input,
                    SessionAction::SetViewport { width: width as u32, height: height as u32 },
                )
            } else {
                (phase, input, SessionAction::Nothing)
            },
            SessionEvent::DetachSurface => if phase.has_player() {
                (Phase::Paused, input, SessionAction::Pause)
            } else {
                (phase, input, SessionAction::Nothing)
            },
            SessionEvent::HandleKeyEvent(e) => if phase.has_player() {
                let (input2, r) = key_step(input, e);
                match r {
                    Some(ev) => (phase, input2, SessionAction::Emit(ev)),
                    None => (phase, input2, SessionAction::Nothing),
                }
            } else {
                (phase, input, SessionAction::Nothing)
            },
        }
    }
}

/// The worker's state: the phase of playback and the input dispatcher.
pub struct Session {
    phase: Phase,
    input: InputDispatcher,
}

/// What a session holds, as the contracts see it.
pub struct SessionState {
    pub phase: Phase,
    pub input: InputState,
}

impl View for Session {
    type V = SessionState;

    closed spec fn view(&self) -> SessionState {
        SessionState { phase: self.phase, input: self.input@ }
    }
}

impl Session {
    /// A session before any surface, with a fresh input dispatcher.
    pub fn new() -> (r: Session)
        ensures
            r@ == (SessionState { phase: Phase::Uninitialized, input: InputDispatcher::new_state() }),
    {
        Session { phase: Phase::Uninitialized, input: InputDispatcher::new() }
    }

    /// The phase of playback.
    pub fn phase(&self) -> (r: Phase)
        ensures
            r == self@.phase,
    {
        self.phase
    }

    /// Whether a player exists, so that the worker ticks it and polls input for it.
    pub fn has_player(&self) -> (r: bool)
        ensures
            r == self@.phase.has_player(),
    {
        self.phase == Phase::Running || self.phase == Phase::Paused
    }

    /// Decides what `event` asks of the worker and moves to the next phase.
    pub fn handle_event(&mut self, event: SessionEvent) -> (r: SessionAction)
        ensures
            (final(self)@.phase, final(self)@.input, r) == session_step(
                old(self)@.phase,
                old(self)@.input,
                event,
            ),
    {
        if self.phase == Phase::Terminated {
            return SessionAction::Nothing;
        }
        match event {
            SessionEvent::Kill => {
                self.phase = Phase::Terminated;
                SessionAction::Exit
            },
            SessionEvent::AttachSurface { width, height } => {
                let created = self.phase == Phase::Uninitialized;
                self.phase = Phase::Running;
                if created {
                    SessionAction::CreatePlayer { width, height }
                } else {
                    SessionAction::RecreateSurface { width, height }
                }
            },
            SessionEvent::AdjustSurfaceSize { width, height } => {
                if self.has_player() {
                    SessionAction::SetViewport { width: width as u32, height: height as u32 }
                } else {
                    SessionAction::Nothing
                }
            },
            SessionEvent::DetachSurface => {
                if self.has_player() {
                    self.phase = Phase::Paused;
                    SessionAction::Pause
                } else {
                    SessionAction::Nothing
                }
            },
            SessionEvent::HandleKeyEvent(e) => {
                if self.has_player() {
                    match self.input.dispatch_key_event(e) {
                        Some(ev) => SessionAction::Emit(ev),
                        None => SessionAction::Nothing,
                    }
                } else {
                    SessionAction::Nothing
                }
            },
        }
    }

    /// Dispatches the polled joypad bitmask `status` of `port` and returns what it
    /// emitted; the phase stays.
    pub fn poll_joypad(&mut self, port: i32, status: i32) -> (r: Vec<PlayerEvent>)
        ensures
            final(self)@.phase == old(self)@.phase,
            (final(self)@.input, r@) == key_steps(old(self)@.input, joypad_reports(port, status)),
    {
        self.input.dispatch_joypad_state(port, status)
    }

    /// Dispatches a polled pointer sample and returns what it emitted; the phase stays.
    pub fn poll_pointer(&mut self, event: TouchEvent) -> (r: Option<PlayerEvent>)
        ensures
            final(self)@.phase == old(self)@.phase,
            (final(self)@.input, r) == touch_step(old(self)@.input, event),
    {
        self.input.dispatch_touch_event(event)
    }
}

} // verus!
