//! What the drag source reads of AppKit's events, and the events that it makes up itself.
use vstd::prelude::*;

verus! {

/// AppKit's `NSEventType`.
pub type NSEventType = usize;

/// The left mouse button went down.
pub const NS_EVENT_TYPE_LEFT_MOUSE_DOWN: NSEventType = 1;

/// The right mouse button went down.
pub const NS_EVENT_TYPE_RIGHT_MOUSE_DOWN: NSEventType = 3;

/// The mouse moved with no button down.
pub const NS_EVENT_TYPE_MOUSE_MOVED: NSEventType = 5;

/// A key went down.
pub const NS_EVENT_TYPE_KEY_DOWN: NSEventType = 10;

/// AppKit's `NSEventPhase`.
pub type NSEventPhase = usize;

/// The event is not part of a gesture.
pub const NS_EVENT_PHASE_NONE: NSEventPhase = 0;

/// The gesture is complete.
pub const NS_EVENT_PHASE_ENDED: NSEventPhase = 8;

/// The gesture was called off.
pub const NS_EVENT_PHASE_CANCELLED: NSEventPhase = 16;

/// Core Graphics' `kCGScrollWheelEventScrollPhase`.
pub const CG_SCROLL_WHEEL_EVENT_SCROLL_PHASE: u32 = 99;

/// The virtual key code of the escape key.
pub const KEY_CODE_ESCAPE: u16 = 0x35;

/// A mouse button event: its type, and the event itself as the platform knows it.
#[derive(Debug)]
pub struct MouseEvent<E> {
    /// The type of `event`.
    pub event_type: NSEventType,
    /// The event.
    pub event: E,
}

/// A scroll, magnify or rotate event: its phase, and the event itself as the platform knows it.
#[derive(Debug)]
pub struct MomentumEvent<E> {
    /// The phase of `event`.
    pub phase: NSEventPhase,
    /// The event.
    pub event: E,
}

/// The event that the application is working on.
#[derive(Clone, Copy, Debug)]
pub struct CurrentEvent {
    /// The type of the event.
    pub event_type: NSEventType,
    /// The key code. Only events for which `carries_key_code` holds have one; for others the
    /// number here is not read.
    pub key_code: u16,
}

/// The types of the events that let a mouse button go, out of Core Graphics' `CGEventType`.
#[derive(Clone, Copy, Debug, PartialEq, Eq, Structural)]
pub enum MouseUpType {
    /// `kCGEventLeftMouseUp`.
    LeftMouseUp,
    /// `kCGEventRightMouseUp`.
    RightMouseUp,
}

/// How the pointer lies to the edges of the content of a window, on screen.
///
/// The pointer is on the inner side of an edge only if it is not on the edge itself.
#[derive(Clone, Copy, Debug)]
pub struct PointerPosition {
    /// The pointer is to the right of the left edge.
    pub inside_left: bool,
    /// The pointer is to the left of the right edge.
    pub inside_right: bool,
    /// The pointer is above the bottom edge.
    pub inside_bottom: bool,
    /// The pointer is below the top edge.
    pub inside_top: bool,
}

/// A mouse event to be made at the place of the pointer and sent to the window.
#[derive(Clone, Copy, Debug, PartialEq, Eq, Structural)]
pub struct SynthesizedMouseMove {
    /// The type of the event.
    pub event_type: NSEventType,
    /// The number of the window.
    pub window_number: isize,
    /// The number of the event.
    pub event_number: isize,
    /// The number of clicks.
    pub click_count: isize,
}

/// Whether a gesture event leaves its gesture unfinished.
pub open spec fn is_unfinished(phase: NSEventPhase) -> bool {
    phase != NS_EVENT_PHASE_NONE && phase != NS_EVENT_PHASE_ENDED && phase
        != NS_EVENT_PHASE_CANCELLED
}

/// The event type that undoes a mouse button going down.
pub open spec fn opposite_of(event_type: NSEventType) -> Option<MouseUpType> {
    if event_type == NS_EVENT_TYPE_LEFT_MOUSE_DOWN {
        Some(MouseUpType::LeftMouseUp)
    } else if event_type == NS_EVENT_TYPE_RIGHT_MOUSE_DOWN {
        Some(MouseUpType::RightMouseUp)
    } else {
        None
    }
}

/// Whether the user calls off a drag with the event that the application is working on.
pub open spec fn is_escape(event: Option<CurrentEvent>) -> bool {
    match event {
        Some(event) => event.event_type == NS_EVENT_TYPE_KEY_DOWN && event.key_code
            == KEY_CODE_ESCAPE,
        None => false,
    }
}

/// Whether a gesture event leaves its gesture unfinished.
pub fn leaves_gesture_unfinished(phase: NSEventPhase) -> (res: bool)
    ensures
        res == is_unfinished(phase),
{
    phase != NS_EVENT_PHASE_NONE && phase != NS_EVENT_PHASE_ENDED && phase
        != NS_EVENT_PHASE_CANCELLED
}

/// The event type that undoes a mouse button going down.
pub fn opposite(event_type: NSEventType) -> (res: Option<MouseUpType>)
    ensures
        res == opposite_of(event_type),
{
    if event_type == NS_EVENT_TYPE_LEFT_MOUSE_DOWN {
        Some(MouseUpType::LeftMouseUp)
    } else if event_type == NS_EVENT_TYPE_RIGHT_MOUSE_DOWN {
        Some(MouseUpType::RightMouseUp)
    } else {
        None
    }
}

/// Whether the key code of an event of this type is looked at.
pub fn carries_key_code(event_type: NSEventType) -> (res: bool)
    ensures
        res == (event_type == NS_EVENT_TYPE_KEY_DOWN),
{
    event_type == NS_EVENT_TYPE_KEY_DOWN
}

/// Whether the user calls off a drag with the event that the application is working on.
pub fn user_cancels(event: Option<CurrentEvent>) -> (res: bool)
    ensures
        res == is_escape(event),
{
    match event {
        Some(event) => carries_key_code(event.event_type) && event.key_code == KEY_CODE_ESCAPE,
        None => false,
    }
}

/// Whether the pointer is in the content of the window, off its edges.
pub open spec fn is_inside(position: PointerPosition) -> bool {
    position.inside_left && position.inside_right && position.inside_bottom && position.inside_top
}

/// The mouse move that lets a window notice where the pointer is after a drag, if the pointer is
/// in the window's content. `position` is `None` where there is no window.
pub fn synthesize_mouse_move_if_needed(position: Option<PointerPosition>) -> (res: Option<
    SynthesizedMouseMove,
>)
    ensures
        res is Some <==> (position is Some && is_inside(position->0)),
        res matches Some(event) ==> event == (SynthesizedMouseMove {
            event_type: NS_EVENT_TYPE_MOUSE_MOVED,
            window_number: 0,
            event_number: 0,
            click_count: 1,
        }),
{
    match position {
        Some(position) => if position.inside_left && position.inside_right
            && position.inside_bottom && position.inside_top {
            Some(
                SynthesizedMouseMove {
                    event_type: NS_EVENT_TYPE_MOUSE_MOVED,
                    window_number: 0,
                    event_number: 0,
                    click_count: 1,
                },
            )
        } else {
            None
        },
        None => None,
    }
}

/// A key code is looked at only in events that carry one.
pub proof fn law_key_code_read_only_from_key_events(event_type: NSEventType, a: u16, b: u16)
    requires
        event_type != NS_EVENT_TYPE_KEY_DOWN,
    ensures
        is_escape(Some(CurrentEvent { event_type, key_code: a })) == is_escape(
            Some(CurrentEvent { event_type, key_code: b }),
        ),
{
}

/// A gesture is finished by an event that belongs to no gesture, ends it or calls it off, and by no
/// other.
pub proof fn law_gesture_is_unfinished_but_for_three_phases(phase: NSEventPhase, res: bool)
    requires
        call_ensures(leaves_gesture_unfinished, (phase,), res),
    ensures
        phase == 0 || phase == 8 || phase == 16 ==> !res,
        phase != 0 && phase != 8 && phase != 16 ==> res,
{
}

/// The left button is let go by the left one going up and the right button by the right one. No
/// other event is undone.
pub proof fn law_button_is_undone_by_itself(event_type: NSEventType, res: Option<MouseUpType>)
    requires
        call_ensures(opposite, (event_type,), res),
    ensures
        event_type == 1 <==> res == Some(MouseUpType::LeftMouseUp),
        event_type == 3 <==> res == Some(MouseUpType::RightMouseUp),
{
}

/// The key code is looked at for a key going down, and for nothing else.
pub proof fn law_key_going_down_carries_key_code(event_type: NSEventType, res: bool)
    requires
        call_ensures(carries_key_code, (event_type,), res),
    ensures
        res <==> event_type == 10,
{
}

/// The user calls off a drag by the escape key going down. Nothing else does, and no event does not
/// either.
pub proof fn law_only_escape_calls_off(event: Option<CurrentEvent>, res: bool)
    requires
        call_ensures(user_cancels, (event,), res),
    ensures
        res ==> event is Some && event->0.event_type == 10 && event->0.key_code == 0x35,
        event is Some && event->0.event_type == 10 && event->0.key_code == 0x35 ==> res,
{
}

/// A mouse move is made exactly if there is a window and the pointer is on the inner side of each
/// of its four edges. All moves that are made are alike.
pub proof fn law_mouse_moves_only_inside_all_edges(
    position: Option<PointerPosition>,
    res: Option<SynthesizedMouseMove>,
)
    requires
        call_ensures(synthesize_mouse_move_if_needed, (position,), res),
    ensures
        position is None ==> res is None,
        res is Some ==> {
            &&& position is Some
            &&& position->0.inside_left
            &&& position->0.inside_right
            &&& position->0.inside_bottom
            &&& position->0.inside_top
        },
        position matches Some(p) && p.inside_left && p.inside_right && p.inside_bottom
            && p.inside_top ==> res is Some,
        res matches Some(made) ==> {
            &&& made.event_type == 5
            &&& made.window_number == 0
            &&& made.event_number == 0
            &&& made.click_count == 1
        },
{
}

} // verus!
