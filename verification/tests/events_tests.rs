use overlay_core::events::handle_event;
use overlay_core::events::LoopAction;
use overlay_core::events::LoopEvent;
use overlay_core::events::LoopState;

#[test]
fn close_request_terminates_and_exits() {
    let (state, action) = handle_event(LoopState::Running, LoopEvent::CloseRequested);
    assert_eq!(state, LoopState::Terminating);
    assert_eq!(action, LoopAction::Exit);
}

#[test]
fn redraw_request_renders_one_frame_while_running() {
    let (state, action) = handle_event(LoopState::Running, LoopEvent::RedrawRequested);
    assert_eq!(state, LoopState::Running);
    assert_eq!(action, LoopAction::RunRedraw);
}

#[test]
fn resize_resizes_the_surface() {
    let (state, action) = handle_event(
        LoopState::Running,
        LoopEvent::Resized { width: 1024, height: 768 },
    );
    assert_eq!(state, LoopState::Running);
    assert_eq!(action, LoopAction::ResizeSurface { width: 1024, height: 768 });
}

#[test]
fn idle_tick_requests_exactly_one_redraw() {
    let (state, action) = handle_event(LoopState::Running, LoopEvent::AboutToWait);
    assert_eq!(state, LoopState::Running);
    assert_eq!(action, LoopAction::RequestRedraw);
}

#[test]
fn other_events_are_ignored() {
    let (state, action) = handle_event(LoopState::Running, LoopEvent::Other);
    assert_eq!(state, LoopState::Running);
    assert_eq!(action, LoopAction::Ignore);
}

#[test]
fn no_redraws_are_issued_after_termination() {
    for event in [
        LoopEvent::RedrawRequested,
        LoopEvent::AboutToWait,
        LoopEvent::Resized { width: 10, height: 10 },
        LoopEvent::Other,
    ] {
        let (state, action) = handle_event(LoopState::Terminating, event);
        assert_eq!(state, LoopState::Terminating);
        assert_eq!(action, LoopAction::Ignore);
    }
}
