use mimiq::frame::{window_event_actions, AppAction, WindowEventKind};

#[test]
fn redraw_runs_a_whole_frame() {
    assert_eq!(
        window_event_actions(WindowEventKind::RedrawRequested, true, true),
        vec![
            AppAction::UpdateHandler,
            AppAction::RecaptureGl,
            AppAction::ForwardEvent,
            AppAction::FinishGl,
            AppAction::SwapBuffers,
            AppAction::RequestRedraw,
        ]
    );
}

#[test]
fn close_exits_and_still_reaches_handler() {
    assert_eq!(
        window_event_actions(WindowEventKind::CloseRequested, true, false),
        vec![AppAction::ExitLoop, AppAction::ForwardEvent]
    );
    assert_eq!(
        window_event_actions(WindowEventKind::CloseRequested, false, false),
        vec![AppAction::ExitLoop]
    );
}

#[test]
fn resize_updates_surface_before_handler() {
    assert_eq!(
        window_event_actions(WindowEventKind::Resized { width: 640, height: 480 }, true, false),
        vec![
            AppAction::ResizeSurface { width: 640, height: 480 },
            AppAction::SetClientAreaSize { width: 640, height: 480 },
            AppAction::ForwardEvent,
        ]
    );
    assert!(window_event_actions(WindowEventKind::Resized { width: 1, height: 1 }, false, false)
        .is_empty());
}

#[test]
fn consumed_events_do_not_reach_handler() {
    assert!(window_event_actions(WindowEventKind::Other, true, true).is_empty());
    assert_eq!(
        window_event_actions(WindowEventKind::Other, true, false),
        vec![AppAction::ForwardEvent]
    );
}
