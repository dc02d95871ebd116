//! The application handler: a state machine from lifecycle events to actions.
//!
//! The handler owns no OS resource itself; it decides. The surrounding event
//! loop reports each event through [`HandlerState::handle`] and then carries
//! out the returned [`Action`]: creating the window/context/surface triple,
//! resizing the surface, rendering a frame, or stopping the loop. The state
//! records whether the render session (the owned window/context/surface
//! triple) is absent, being created, or present; once present it is never
//! cleared or replaced, only its recorded surface dimensions follow resizes.

use vstd::prelude::*;

verus! {

/// What the handler tracks of the render session: the current pixel
/// dimensions of its drawable surface. The window, context and surface
/// resources themselves are owned by the surrounding loop.
#[derive(Clone, Copy, PartialEq, Eq, Structural, Debug)]
pub struct RenderSession {
    pub width: u32,
    pub height: u32,
}

/// A lifecycle or input event, as the surrounding loop reports it.
#[derive(Clone, Copy, PartialEq, Eq, Structural, Debug)]
pub enum Event {
    /// The OS says the application became active and may display content.
    Resumed,
    /// The loop finished creating the window/context/surface triple that a
    /// [`Action::CreateSession`] asked for; the surface has these dimensions.
    SessionCreated { width: u32, height: u32 },
    /// The window was resized to these pixel dimensions.
    Resized { width: u32, height: u32 },
    /// The user asked to close the window.
    CloseRequested,
    /// The OS or a previous frame asked for a redraw.
    RedrawRequested,
    /// Any other event; the handler ignores it.
    Other,
}

/// What the surrounding loop must do next.
#[derive(Clone, Copy, PartialEq, Eq, Structural, Debug)]
pub enum Action {
    /// Create the window, negotiate a configuration, create the context and
    /// surface, make the context current, load the function table; then
    /// report back with [`Event::SessionCreated`].
    CreateSession,
    /// Resize the drawable surface to exactly these (nonzero) dimensions,
    /// then request exactly one redraw.
    ResizeSurface { width: u32, height: u32 },
    /// Clear the color buffer to the fixed clear color, swap buffers, then
    /// request exactly one redraw.
    RenderFrame,
    /// Signal the event loop to stop dispatching.
    SignalExit,
    /// Do nothing.
    Nothing,
}

/// The handler's state: the render session is absent until first activation,
/// then under creation, then present for the rest of the process lifetime.
#[derive(Clone, Copy, PartialEq, Eq, Structural, Debug)]
pub enum HandlerState {
    /// No activation signal has been handled yet.
    Uninitialized,
    /// Activation was handled and the loop was asked to create the session.
    CreatingSession,
    /// The session exists; it is never cleared or replaced.
    Ready { session: RenderSession },
}

/// The handler's whole behavior: from a state and an event to the next state
/// and the action owed by the surrounding loop.
pub open spec fn spec_transition(s: HandlerState, e: Event) -> (HandlerState, Action) {
    match e {
        Event::Resumed => {
            if s is Uninitialized {
                (HandlerState::CreatingSession, Action::CreateSession)
            } else {
                (s, Action::Nothing)
            }
        },
        Event::SessionCreated { width, height } => {
            if s is CreatingSession {
                (
                    HandlerState::Ready { session: RenderSession { width, height } },
                    Action::Nothing,
                )
            } else {
                (s, Action::Nothing)
            }
        },
        Event::Resized { width, height } => {
            if s is Ready && width != 0 && height != 0 {
                (
                    HandlerState::Ready { session: RenderSession { width, height } },
                    Action::ResizeSurface { width, height },
                )
            } else {
                (s, Action::Nothing)
            }
        },
        Event::CloseRequested => (s, Action::SignalExit),
        Event::RedrawRequested => {
            if s is Ready {
                (s, Action::RenderFrame)
            } else {
                (s, Action::Nothing)
            }
        },
        Event::Other => (s, Action::Nothing),
    }
}

impl HandlerState {
    /// A fresh handler: no session yet.
    pub fn new() -> (r: HandlerState)
        ensures
            r == HandlerState::Uninitialized,
    {
        HandlerState::Uninitialized
    }

    /// Handle one event: step the state machine and tell the surrounding
    /// loop what it must do.
    pub fn handle(&mut self, event: Event) -> (action: Action)
        ensures
            *final(self) == spec_transition(*old(self), event).0,
            action == spec_transition(*old(self), event).1,
    {
        match event {
            Event::Resumed => {
                match *self {
                    HandlerState::Uninitialized => {
                        *self = HandlerState::CreatingSession;
                        Action::CreateSession
                    },
                    _ => Action::Nothing,
                }
            },
            Event::SessionCreated { width, height } => {
                match *self {
                    HandlerState::CreatingSession => {
                        *self = HandlerState::Ready { session: RenderSession { width, height } };
                        Action::Nothing
                    },
                    _ => Action::Nothing,
                }
            },
            Event::Resized { width, height } => {
                match *self {
                    HandlerState::Ready { session: _ } => {
                        if width != 0 && height != 0 {
                            *self = HandlerState::Ready {
                                session: RenderSession { width, height },
                            };
                            Action::ResizeSurface { width, height }
                        } else {
                            Action::Nothing
                        }
                    },
                    _ => Action::Nothing,
                }
            },
            Event::CloseRequested => Action::SignalExit,
            Event::RedrawRequested => {
                match *self {
                    HandlerState::Ready { session: _ } => Action::RenderFrame,
                    _ => Action::Nothing,
                }
            },
            Event::Other => Action::Nothing,
        }
    }
}

/// Activation is idempotent: after one resumed signal has been handled, a
/// second resumed signal changes nothing and never asks for a second
/// session.
pub proof fn lemma_activation_idempotent(s: HandlerState)
    ensures
        spec_transition(spec_transition(s, Event::Resumed).0, Event::Resumed).0
            == spec_transition(s, Event::Resumed).0,
        spec_transition(spec_transition(s, Event::Resumed).0, Event::Resumed).1
            != Action::CreateSession,
{
}

/// A degenerate resize (either dimension zero) is ignored: the surface is
/// not resized, no redraw is requested, and the state does not change.
pub proof fn lemma_degenerate_resize_ignored(s: HandlerState, width: u32, height: u32)
    requires
        width == 0 || height == 0,
    ensures
        spec_transition(s, (Event::Resized { width, height })) == (s, Action::Nothing),
{
}

/// A valid resize in the ready state resizes the surface to exactly the
/// event's dimensions (recorded in the session) and schedules exactly one
/// redraw, through the one resize action it returns.
pub proof fn lemma_valid_resize_redraws(s: HandlerState, width: u32, height: u32)
    requires
        s is Ready,
        width != 0,
        height != 0,
    ensures
        spec_transition(s, (Event::Resized { width, height })).0
            == (HandlerState::Ready { session: RenderSession { width, height } }),
        spec_transition(s, (Event::Resized { width, height })).1
            == (Action::ResizeSurface { width, height }),
{
}

/// A close request signals the loop's exit, whatever the state; nothing but
/// a close request ever signals it; and the handler state is unchanged.
pub proof fn lemma_close_signals_exit(s: HandlerState, e: Event)
    ensures
        spec_transition(s, Event::CloseRequested) == (s, Action::SignalExit),
        spec_transition(s, e).1 == Action::SignalExit ==> e == Event::CloseRequested,
{
}

/// Steady-state redraw: in the ready state each redraw event yields exactly
/// one frame render (one clear, one buffer swap, one new redraw request,
/// through the one render action) and leaves the state unchanged, so every
/// later redraw event behaves the same.
pub proof fn lemma_redraw_steady_state(s: HandlerState)
    requires
        s is Ready,
    ensures
        spec_transition(s, Event::RedrawRequested) == (s, Action::RenderFrame),
        spec_transition(
            spec_transition(s, Event::RedrawRequested).0,
            Event::RedrawRequested,
        ).1 == Action::RenderFrame,
{
}

/// Once the session exists it is never cleared or replaced: every event
/// leaves the handler in the ready state, and only a valid resize changes
/// the recorded surface dimensions.
pub proof fn lemma_session_never_cleared(s: HandlerState, e: Event)
    requires
        s is Ready,
    ensures
        spec_transition(s, e).0 is Ready,
        !(e matches Event::Resized { width, height } && width != 0 && height != 0)
            ==> spec_transition(s, e).0 == s,
{
}

} // verus!
