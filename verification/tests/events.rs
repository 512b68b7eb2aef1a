use drag_context::event::{
    carries_key_code, leaves_gesture_unfinished, opposite, synthesize_mouse_move_if_needed,
    user_cancels, CurrentEvent, MouseUpType, PointerPosition, SynthesizedMouseMove,
};

#[test]
fn unfinished_phases() {
    // None, ended and cancelled.
    assert!(!leaves_gesture_unfinished(0));
    assert!(!leaves_gesture_unfinished(8));
    assert!(!leaves_gesture_unfinished(16));
    // Began, stationary, changed and may begin.
    assert!(leaves_gesture_unfinished(1));
    assert!(leaves_gesture_unfinished(2));
    assert!(leaves_gesture_unfinished(4));
    assert!(leaves_gesture_unfinished(32));
    assert!(leaves_gesture_unfinished(9));
}

#[test]
fn opposite_types() {
    assert_eq!(opposite(1), Some(MouseUpType::LeftMouseUp));
    assert_eq!(opposite(3), Some(MouseUpType::RightMouseUp));
    assert_eq!(opposite(2), None);
    assert_eq!(opposite(25), None);
}

#[test]
fn escape_cancels() {
    assert!(user_cancels(Some(CurrentEvent { event_type: 10, key_code: 53 })));
}

#[test]
fn nothing_but_escape_cancels() {
    assert!(!user_cancels(None));
    assert!(!user_cancels(Some(CurrentEvent { event_type: 10, key_code: 52 })));
    assert!(!user_cancels(Some(CurrentEvent { event_type: 11, key_code: 53 })));
    assert!(!user_cancels(Some(CurrentEvent { event_type: 2, key_code: 53 })));
}

#[test]
fn key_codes_are_read_from_key_events_only() {
    assert!(carries_key_code(10));
    assert!(!carries_key_code(11));
    assert!(!carries_key_code(1));
    assert_eq!(
        user_cancels(Some(CurrentEvent { event_type: 1, key_code: 0 })),
        user_cancels(Some(CurrentEvent { event_type: 1, key_code: 53 }))
    );
}

fn position(left: bool, right: bool, bottom: bool, top: bool) -> PointerPosition {
    PointerPosition {
        inside_left: left,
        inside_right: right,
        inside_bottom: bottom,
        inside_top: top,
    }
}

#[test]
fn pointer_in_content_moves() {
    assert_eq!(
        synthesize_mouse_move_if_needed(Some(position(true, true, true, true))),
        Some(SynthesizedMouseMove {
            event_type: 5,
            window_number: 0,
            event_number: 0,
            click_count: 1,
        })
    );
}

#[test]
fn pointer_off_content_does_not_move() {
    assert_eq!(synthesize_mouse_move_if_needed(Some(position(false, true, true, true))), None);
    assert_eq!(synthesize_mouse_move_if_needed(Some(position(true, false, true, true))), None);
    assert_eq!(synthesize_mouse_move_if_needed(Some(position(true, true, false, true))), None);
    assert_eq!(synthesize_mouse_move_if_needed(Some(position(true, true, true, false))), None);
}

#[test]
fn no_window_no_move() {
    assert_eq!(synthesize_mouse_move_if_needed(None), None);
}
