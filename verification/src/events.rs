//! The event-driven render loop: two logical states, `Running` and
//! `Terminating`, and the action the loop takes for each window-system
//! event. A close request is the only way into `Terminating`, and once
//! there no further work is issued.

use vstd::prelude::*;

verus! {

/// The loop's two logical states.
#[derive(Clone, Copy, Debug, PartialEq, Eq, Structural)]
pub enum LoopState {
    Running,
    Terminating,
}

/// The events the loop reacts to: a close request, a redraw request, a
/// window resize in pixels, the idle tick after all pending events, and
/// everything else.
#[derive(Clone, Copy, Debug, PartialEq, Eq, Structural)]
pub enum LoopEvent {
    CloseRequested,
    RedrawRequested,
    Resized { width: u32, height: u32 },
    AboutToWait,
    Other,
}

/// What the shell around the loop must do next: stop the event source,
/// render one full frame, resize the surface to the new pixel size,
/// request exactly one redraw, or nothing.
#[derive(Clone, Copy, Debug, PartialEq, Eq, Structural)]
pub enum LoopAction {
    Exit,
    RunRedraw,
    ResizeSurface { width: u32, height: u32 },
    RequestRedraw,
    Ignore,
}

/// The loop's reaction to one event: a close request terminates; while
/// running, a redraw request renders a frame, a resize resizes the surface,
/// and the idle tick requests exactly one redraw; once terminating,
/// nothing further is issued.
pub open spec fn handle_event_spec(state: LoopState, event: LoopEvent) -> (
    LoopState,
    LoopAction,
) {
    match event {
        LoopEvent::CloseRequested => (LoopState::Terminating, LoopAction::Exit),
        LoopEvent::RedrawRequested => (
            state,
            if state == LoopState::Running { LoopAction::RunRedraw } else { LoopAction::Ignore },
        ),
        LoopEvent::Resized { width, height } => (
            state,
            if state == LoopState::Running {
                LoopAction::ResizeSurface { width, height }
            } else {
                LoopAction::Ignore
            },
        ),
        LoopEvent::AboutToWait => (
            state,
            if state == LoopState::Running { LoopAction::RequestRedraw } else { LoopAction::Ignore },
        ),
        LoopEvent::Other => (state, LoopAction::Ignore),
    }
}

/// Dispatches one event: returns the next state and the action the shell
/// performs. Only a close request changes the state, and a terminating
/// loop never asks for another redraw.
pub fn handle_event(state: LoopState, event: LoopEvent) -> (r: (LoopState, LoopAction))
    ensures
        r == handle_event_spec(state, event),
        r.0 == LoopState::Terminating <==> state == LoopState::Terminating || event
            == LoopEvent::CloseRequested,
        state == LoopState::Terminating ==> r.1 != LoopAction::RunRedraw && r.1
            != LoopAction::RequestRedraw,
{
    match event {
        LoopEvent::CloseRequested => (LoopState::Terminating, LoopAction::Exit),
        LoopEvent::RedrawRequested => (
            state,
            match state {
                LoopState::Running => LoopAction::RunRedraw,
                LoopState::Terminating => LoopAction::Ignore,
            },
        ),
        LoopEvent::Resized { width, height } => (
            state,
            match state {
                LoopState::Running => LoopAction::ResizeSurface { width, height },
                LoopState::Terminating => LoopAction::Ignore,
            },
        ),
        LoopEvent::AboutToWait => (
            state,
            match state {
                LoopState::Running => LoopAction::RequestRedraw,
                LoopState::Terminating => LoopAction::Ignore,
            },
        ),
        LoopEvent::Other => (state, LoopAction::Ignore),
    }
}

} // verus!
