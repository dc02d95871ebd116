use render_session::handler::{Action, Event, HandlerState, RenderSession};

fn ready(width: u32, height: u32) -> HandlerState {
    HandlerState::Ready {
        session: RenderSession { width, height },
    }
}

#[test]
fn new_handler_is_uninitialized() {
    assert_eq!(HandlerState::new(), HandlerState::Uninitialized);
}

#[test]
fn first_activation_creates_session() {
    let mut h = HandlerState::new();
    assert_eq!(h.handle(Event::Resumed), Action::CreateSession);
    assert_eq!(h, HandlerState::CreatingSession);
    assert_eq!(
        h.handle(Event::SessionCreated {
            width: 640,
            height: 480,
        }),
        Action::Nothing
    );
    assert_eq!(h, ready(640, 480));
}

#[test]
fn second_activation_is_ignored() {
    let mut h = HandlerState::new();
    let mut creations = 0;
    if h.handle(Event::Resumed) == Action::CreateSession {
        creations += 1;
    }
    h.handle(Event::SessionCreated {
        width: 640,
        height: 480,
    });
    if h.handle(Event::Resumed) == Action::CreateSession {
        creations += 1;
    }
    assert_eq!(creations, 1);
    assert_eq!(h, ready(640, 480));
}

#[test]
fn activation_while_creating_is_ignored() {
    let mut h = HandlerState::new();
    h.handle(Event::Resumed);
    assert_eq!(h.handle(Event::Resumed), Action::Nothing);
    assert_eq!(h, HandlerState::CreatingSession);
}

#[test]
fn degenerate_resize_is_ignored() {
    let mut h = ready(640, 480);
    assert_eq!(
        h.handle(Event::Resized {
            width: 0,
            height: 600,
        }),
        Action::Nothing
    );
    assert_eq!(
        h.handle(Event::Resized {
            width: 800,
            height: 0,
        }),
        Action::Nothing
    );
    assert_eq!(
        h.handle(Event::Resized {
            width: 0,
            height: 0,
        }),
        Action::Nothing
    );
    assert_eq!(h, ready(640, 480));
}

#[test]
fn valid_resize_resizes_and_redraws_once() {
    let mut h = ready(640, 480);
    assert_eq!(
        h.handle(Event::Resized {
            width: 800,
            height: 600,
        }),
        Action::ResizeSurface {
            width: 800,
            height: 600,
        }
    );
    assert_eq!(h, ready(800, 600));
}

#[test]
fn resize_before_session_is_ignored() {
    let mut h = HandlerState::new();
    assert_eq!(
        h.handle(Event::Resized {
            width: 800,
            height: 600,
        }),
        Action::Nothing
    );
    assert_eq!(h, HandlerState::Uninitialized);
}

#[test]
fn close_signals_exit_once_per_request() {
    let mut h = ready(640, 480);
    assert_eq!(h.handle(Event::CloseRequested), Action::SignalExit);
    assert_eq!(h, ready(640, 480));
    let mut early = HandlerState::new();
    assert_eq!(early.handle(Event::CloseRequested), Action::SignalExit);
}

#[test]
fn no_other_event_signals_exit() {
    let mut h = ready(640, 480);
    for e in [
        Event::Resumed,
        Event::SessionCreated {
            width: 1,
            height: 1,
        },
        Event::Resized {
            width: 800,
            height: 600,
        },
        Event::RedrawRequested,
        Event::Other,
    ] {
        assert_ne!(h.handle(e), Action::SignalExit);
    }
}

#[test]
fn redraw_renders_one_frame_and_stays_ready() {
    let mut h = ready(640, 480);
    for _ in 0..3 {
        assert_eq!(h.handle(Event::RedrawRequested), Action::RenderFrame);
        assert_eq!(h, ready(640, 480));
    }
}

#[test]
fn redraw_before_session_is_ignored() {
    let mut h = HandlerState::new();
    assert_eq!(h.handle(Event::RedrawRequested), Action::Nothing);
    h.handle(Event::Resumed);
    assert_eq!(h.handle(Event::RedrawRequested), Action::Nothing);
}

#[test]
fn other_events_are_ignored() {
    let mut h = ready(640, 480);
    assert_eq!(h.handle(Event::Other), Action::Nothing);
    assert_eq!(h, ready(640, 480));
}

#[test]
fn session_is_never_cleared() {
    let mut h = ready(640, 480);
    for e in [
        Event::Resumed,
        Event::SessionCreated {
            width: 1,
            height: 1,
        },
        Event::Resized {
            width: 0,
            height: 0,
        },
        Event::Resized {
            width: 320,
            height: 200,
        },
        Event::CloseRequested,
        Event::RedrawRequested,
        Event::Other,
    ] {
        h.handle(e);
        assert!(matches!(h, HandlerState::Ready { .. }));
    }
}
