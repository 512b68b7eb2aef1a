use drag_context::callback::{
    mouse_down_can_move_window, prepare_flutter, Callback, EventStep,
};

#[test]
fn selectors() {
    assert_eq!(
        Callback::SourceOperationMaskForDraggingContext.selector(),
        "draggingSession:sourceOperationMaskForDraggingContext:"
    );
    assert_eq!(
        Callback::DraggingSessionEndedAtPoint.selector(),
        "draggingSession:endedAtPoint:operation:"
    );
    assert_eq!(
        Callback::DraggingSessionMovedToPoint.selector(),
        "draggingSession:movedToPoint:"
    );
    assert_eq!(Callback::MouseDownCanMoveWindow.selector(), "mouseDownCanMoveWindow");
    assert_eq!(Callback::MouseDown.selector(), "mouseDown:");
    assert_eq!(Callback::MouseUp.selector(), "mouseUp:");
    assert_eq!(Callback::RightMouseDown.selector(), "rightMouseDown:");
    assert_eq!(Callback::RightMouseUp.selector(), "rightMouseUp:");
    assert_eq!(Callback::ScrollWheel.selector(), "scrollWheel:");
    assert_eq!(Callback::MagnifyWithEvent.selector(), "magnifyWithEvent:");
    assert_eq!(Callback::RotateWithEvent.selector(), "rotateWithEvent:");
    assert_eq!(
        Callback::ShouldDelayWindowOrdering.selector(),
        "shouldDelayWindowOrderingForEvent:"
    );
}

#[test]
fn every_callback_once() {
    let all = prepare_flutter();
    assert_eq!(all.len(), 12);
    assert_eq!(all[0], Callback::SourceOperationMaskForDraggingContext);
    assert_eq!(all[11], Callback::ShouldDelayWindowOrdering);
    for i in 0..all.len() {
        for j in 0..i {
            assert_ne!(all[i], all[j]);
            assert_ne!(all[i].selector(), all[j].selector());
        }
    }
}

#[test]
fn events_go_on_to_the_view() {
    let forwarded: Vec<&str> = prepare_flutter()
        .into_iter()
        .filter(|callback| callback.event_steps().contains(&EventStep::PassOn))
        .map(|callback| callback.selector())
        .collect();
    assert_eq!(
        forwarded,
        vec![
            "mouseDown:",
            "mouseUp:",
            "rightMouseDown:",
            "rightMouseUp:",
            "scrollWheel:",
            "magnifyWithEvent:",
            "rotateWithEvent:",
        ]
    );
}

#[test]
fn events_are_remembered_and_then_passed_on_once() {
    let remember_then_pass_on = vec![EventStep::Remember, EventStep::PassOn];
    assert_eq!(Callback::MouseDown.event_steps(), remember_then_pass_on);
    assert_eq!(Callback::MouseUp.event_steps(), remember_then_pass_on);
    assert_eq!(Callback::RightMouseDown.event_steps(), remember_then_pass_on);
    assert_eq!(Callback::RightMouseUp.event_steps(), remember_then_pass_on);
    assert_eq!(Callback::ScrollWheel.event_steps(), remember_then_pass_on);
    assert_eq!(Callback::MagnifyWithEvent.event_steps(), remember_then_pass_on);
    assert_eq!(Callback::RotateWithEvent.event_steps(), remember_then_pass_on);
}

#[test]
fn answered_messages_are_not_passed_on() {
    assert_eq!(Callback::SourceOperationMaskForDraggingContext.event_steps(), vec![]);
    assert_eq!(Callback::DraggingSessionEndedAtPoint.event_steps(), vec![]);
    assert_eq!(Callback::DraggingSessionMovedToPoint.event_steps(), vec![]);
    assert_eq!(Callback::MouseDownCanMoveWindow.event_steps(), vec![]);
    assert_eq!(Callback::ShouldDelayWindowOrdering.event_steps(), vec![]);
}

#[test]
fn mouse_down_moves_window() {
    assert!(mouse_down_can_move_window());
}
