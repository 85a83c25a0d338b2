//! What the application does for each window event.

use vstd::prelude::*;

verus! {

/// The window events the application tells apart.
#[derive(Debug, Clone, Copy, PartialEq, Eq, Structural)]
pub enum WindowEventKind {
    CloseRequested,
    Resized { width: u32, height: u32 },
    RedrawRequested,
    /// Any other event.
    Other,
}

/// One step the application takes in answer to a window event.
#[derive(Debug, Clone, Copy, PartialEq, Eq, Structural)]
pub enum AppAction {
    /// Leave the event loop.
    ExitLoop,
    /// Resize the drawing surface.
    ResizeSurface { width: u32, height: u32 },
    /// Record the new size of the client area.
    SetClientAreaSize { width: u32, height: u32 },
    /// Measure the time since the last frame and let the handler update.
    UpdateHandler,
    /// Bring the GL state back to what the library expects.
    RecaptureGl,
    /// Hand the event to the handler.
    ForwardEvent,
    /// Wait for GL to finish the frame.
    FinishGl,
    SwapBuffers,
    RequestRedraw,
}

/// The steps taken for `event`: `ready` tells whether the application has
/// been initialised, `consumed` whether an overlay already used the event.
pub open spec fn window_event_actions_spec(
    event: WindowEventKind,
    ready: bool,
    consumed: bool,
) -> Seq<AppAction> {
    let first = match event {
        WindowEventKind::CloseRequested => seq![AppAction::ExitLoop],
        WindowEventKind::Resized { width, height } => if ready {
            seq![
                AppAction::ResizeSurface { width, height },
                AppAction::SetClientAreaSize { width, height },
            ]
        } else {
            seq![]
        },
        _ => seq![],
    };
    let rest = if !ready {
        seq![]
    } else if event == WindowEventKind::RedrawRequested {
        seq![
            AppAction::UpdateHandler,
            AppAction::RecaptureGl,
            AppAction::ForwardEvent,
            AppAction::FinishGl,
            AppAction::SwapBuffers,
            AppAction::RequestRedraw,
        ]
    } else if !consumed {
        seq![AppAction::ForwardEvent]
    } else {
        seq![]
    };
    first + rest
}

/// The steps the application takes, in order, for a window event.
pub fn window_event_actions(event: WindowEventKind, ready: bool, consumed: bool) -> (r: Vec<AppAction>)
    ensures
        r@ == window_event_actions_spec(event, ready, consumed),
{
    let mut actions: Vec<AppAction> = Vec::new();
    match event {
        WindowEventKind::CloseRequested => {
            actions.push(AppAction::ExitLoop);
        },
        WindowEventKind::Resized { width, height } => {
            if ready {
                actions.push(AppAction::ResizeSurface { width, height });
                actions.push(AppAction::SetClientAreaSize { width, height });
            }
        },
        _ => {},
    }
    if !ready {
        return actions;
    }
    if event == WindowEventKind::RedrawRequested {
        actions.push(AppAction::UpdateHandler);
        actions.push(AppAction::RecaptureGl);
        actions.push(AppAction::ForwardEvent);
        actions.push(AppAction::FinishGl);
        actions.push(AppAction::SwapBuffers);
        actions.push(AppAction::RequestRedraw);
    } else if !consumed {
        actions.push(AppAction::ForwardEvent);
    }
    actions
}

/// Every event reaches the handler of a ready application unless an overlay
/// consumed it, a redraw always does, and a redraw always ends by asking for
/// the next one.
pub proof fn lemma_events_reach_handler(event: WindowEventKind, consumed: bool)
    ensures
        (!consumed || event == WindowEventKind::RedrawRequested) ==> window_event_actions_spec(
            event,
            true,
            consumed,
        ).contains(AppAction::ForwardEvent),
        event == WindowEventKind::RedrawRequested ==> window_event_actions_spec(
            event,
            true,
            consumed,
        ).last() == AppAction::RequestRedraw,
        !window_event_actions_spec(event, false, consumed).contains(AppAction::ForwardEvent),
{
    let acts = window_event_actions_spec(event, true, consumed);
    let n = acts.len();
    if event == WindowEventKind::RedrawRequested {
        assert(acts[n - 4] == AppAction::ForwardEvent);
    } else if !consumed {
        assert(acts[n - 1] == AppAction::ForwardEvent);
    }
    let idle = window_event_actions_spec(event, false, consumed);
    assert forall|i: int| 0 <= i < idle.len() implies idle[i] != AppAction::ForwardEvent by {}
}

} // verus!
