//! The messages of AppKit that the drag source answers in place of the view.
use vstd::prelude::*;

verus! {

/// A message that the class of the view gets a method for.
#[derive(Clone, Copy, Debug, PartialEq, Eq, Structural)]
pub enum Callback {
    /// Which operations does the drag offer?
    SourceOperationMaskForDraggingContext,
    /// The drag ended.
    DraggingSessionEndedAtPoint,
    /// The drag moved.
    DraggingSessionMovedToPoint,
    /// May the window be moved by a mouse button going down in the view?
    MouseDownCanMoveWindow,
    /// The left mouse button went down.
    MouseDown,
    /// The left mouse button went up.
    MouseUp,
    /// The right mouse button went down.
    RightMouseDown,
    /// The right mouse button went up.
    RightMouseUp,
    /// The view is scrolled.
    ScrollWheel,
    /// The view is magnified.
    MagnifyWithEvent,
    /// The view is rotated.
    RotateWithEvent,
    /// Does the order of the windows stay as it is while the mouse button is down?
    ShouldDelayWindowOrdering,
}

/// Something that is done about an event of a view.
#[derive(Clone, Copy, Debug, PartialEq, Eq, Structural)]
pub enum EventStep {
    /// The drag source of the view, if there is one, stores the event.
    Remember,
    /// The event goes on to the view's own method for it.
    PassOn,
}

impl Callback {
    /// The selector of the message.
    pub open spec fn spec_selector(self) -> Seq<char> {
        match self {
            Callback::SourceOperationMaskForDraggingContext =>
                "draggingSession:sourceOperationMaskForDraggingContext:"@,
            Callback::DraggingSessionEndedAtPoint => "draggingSession:endedAtPoint:operation:"@,
            Callback::DraggingSessionMovedToPoint => "draggingSession:movedToPoint:"@,
            Callback::MouseDownCanMoveWindow => "mouseDownCanMoveWindow"@,
            Callback::MouseDown => "mouseDown:"@,
            Callback::MouseUp => "mouseUp:"@,
            Callback::RightMouseDown => "rightMouseDown:"@,
            Callback::RightMouseUp => "rightMouseUp:"@,
            Callback::ScrollWheel => "scrollWheel:"@,
            Callback::MagnifyWithEvent => "magnifyWithEvent:"@,
            Callback::RotateWithEvent => "rotateWithEvent:"@,
            Callback::ShouldDelayWindowOrdering => "shouldDelayWindowOrderingForEvent:"@,
        }
    }

    /// The selector of the message.
    pub fn selector(self) -> (res: &'static str)
        ensures
            res@ == self.spec_selector(),
    {
        match self {
            Callback::SourceOperationMaskForDraggingContext =>
                "draggingSession:sourceOperationMaskForDraggingContext:",
            Callback::DraggingSessionEndedAtPoint => "draggingSession:endedAtPoint:operation:",
            Callback::DraggingSessionMovedToPoint => "draggingSession:movedToPoint:",
            Callback::MouseDownCanMoveWindow => "mouseDownCanMoveWindow",
            Callback::MouseDown => "mouseDown:",
            Callback::MouseUp => "mouseUp:",
            Callback::RightMouseDown => "rightMouseDown:",
            Callback::RightMouseUp => "rightMouseUp:",
            Callback::ScrollWheel => "scrollWheel:",
            Callback::MagnifyWithEvent => "magnifyWithEvent:",
            Callback::RotateWithEvent => "rotateWithEvent:",
            Callback::ShouldDelayWindowOrdering => "shouldDelayWindowOrderingForEvent:",
        }
    }

    /// The message is an event, which the drag source only sees on its way to the view.
    pub open spec fn is_event(self) -> bool {
        match self {
            Callback::MouseDown => true,
            Callback::MouseUp => true,
            Callback::RightMouseDown => true,
            Callback::RightMouseUp => true,
            Callback::ScrollWheel => true,
            Callback::MagnifyWithEvent => true,
            Callback::RotateWithEvent => true,
            _ => false,
        }
    }

    /// What is done about the message if it is an event, in this order: it is stored, and then goes
    /// on to the view, once.
    pub open spec fn spec_event_steps(self) -> Seq<EventStep> {
        if self.is_event() {
            seq![EventStep::Remember, EventStep::PassOn]
        } else {
            Seq::empty()
        }
    }

    /// What is done about the message if it is an event, in this order. Other messages are answered
    /// and do not go on to the view.
    pub fn event_steps(self) -> (res: Vec<EventStep>)
        ensures
            res@ == self.spec_event_steps(),
    {
        match self {
            Callback::MouseDown
            | Callback::MouseUp
            | Callback::RightMouseDown
            | Callback::RightMouseUp
            | Callback::ScrollWheel
            | Callback::MagnifyWithEvent
            | Callback::RotateWithEvent => vec![EventStep::Remember, EventStep::PassOn],
            _ => Vec::new(),
        }
    }
}

/// The methods that the class of the view gets, in the order in which it gets them.
pub open spec fn callbacks() -> Seq<Callback> {
    seq![
        Callback::SourceOperationMaskForDraggingContext,
        Callback::DraggingSessionEndedAtPoint,
        Callback::DraggingSessionMovedToPoint,
        Callback::MouseDownCanMoveWindow,
        Callback::MouseDown,
        Callback::MouseUp,
        Callback::RightMouseDown,
        Callback::RightMouseUp,
        Callback::ScrollWheel,
        Callback::MagnifyWithEvent,
        Callback::RotateWithEvent,
        Callback::ShouldDelayWindowOrdering,
    ]
}

/// The methods that the class of the view gets, in the order in which it gets them.
///
/// Answering mouse buttons makes AppKit ask the view whether they may move the window, so the view
/// answers that as well: without it, a window with a transparent title bar could not be moved.
pub fn prepare_flutter() -> (res: Vec<Callback>)
    ensures
        res@ == callbacks(),
{
    let res: Vec<Callback> = vec![
        Callback::SourceOperationMaskForDraggingContext,
        Callback::DraggingSessionEndedAtPoint,
        Callback::DraggingSessionMovedToPoint,
        Callback::MouseDownCanMoveWindow,
        Callback::MouseDown,
        Callback::MouseUp,
        Callback::RightMouseDown,
        Callback::RightMouseUp,
        Callback::ScrollWheel,
        Callback::MagnifyWithEvent,
        Callback::RotateWithEvent,
        Callback::ShouldDelayWindowOrdering,
    ];
    res
}

/// May the window be moved by a mouse button going down in the view?
pub fn mouse_down_can_move_window() -> (res: bool)
    ensures
        res == true,
{
    true
}

/// Two callbacks never answer the same message.
pub proof fn law_selectors_differ(a: Callback, b: Callback)
    requires
        a.spec_selector() == b.spec_selector(),
    ensures
        a == b,
{
    reveal_strlit("draggingSession:sourceOperationMaskForDraggingContext:");
    reveal_strlit("draggingSession:endedAtPoint:operation:");
    reveal_strlit("draggingSession:movedToPoint:");
    reveal_strlit("mouseDownCanMoveWindow");
    reveal_strlit("mouseDown:");
    reveal_strlit("mouseUp:");
    reveal_strlit("rightMouseDown:");
    reveal_strlit("rightMouseUp:");
    reveal_strlit("scrollWheel:");
    reveal_strlit("magnifyWithEvent:");
    reveal_strlit("rotateWithEvent:");
    reveal_strlit("shouldDelayWindowOrderingForEvent:");
    assert("draggingSession:sourceOperationMaskForDraggingContext:"@.len() == 54);
    assert("draggingSession:endedAtPoint:operation:"@.len() == 39);
    assert("draggingSession:movedToPoint:"@.len() == 29);
    assert("mouseDownCanMoveWindow"@.len() == 22);
    assert("mouseDown:"@.len() == 10);
    assert("mouseUp:"@.len() == 8);
    assert("rightMouseDown:"@.len() == 15);
    assert("rightMouseUp:"@.len() == 13);
    assert("scrollWheel:"@.len() == 12);
    assert("magnifyWithEvent:"@.len() == 17);
    assert("rotateWithEvent:"@.len() == 16);
    assert("shouldDelayWindowOrderingForEvent:"@.len() == 34);
}

/// Every callback is registered, and none twice.
pub proof fn law_every_callback_registered_once(callback: Callback)
    ensures
        callbacks().contains(callback),
        callbacks().no_duplicates(),
{
    let i: int = match callback {
        Callback::SourceOperationMaskForDraggingContext => 0,
        Callback::DraggingSessionEndedAtPoint => 1,
        Callback::DraggingSessionMovedToPoint => 2,
        Callback::MouseDownCanMoveWindow => 3,
        Callback::MouseDown => 4,
        Callback::MouseUp => 5,
        Callback::RightMouseDown => 6,
        Callback::RightMouseUp => 7,
        Callback::ScrollWheel => 8,
        Callback::MagnifyWithEvent => 9,
        Callback::RotateWithEvent => 10,
        Callback::ShouldDelayWindowOrdering => 11,
    };
    assert(callbacks()[i] == callback);
}

/// An event is stored and then goes on to the view, each of them once. About a message that is no
/// event, neither is done.
pub proof fn law_events_are_stored_and_passed_on(callback: Callback, res: Vec<EventStep>)
    requires
        call_ensures(Callback::event_steps, (callback,), res),
    ensures
        callback is MouseDown || callback is MouseUp || callback is RightMouseDown
            || callback is RightMouseUp || callback is ScrollWheel || callback is MagnifyWithEvent
            || callback is RotateWithEvent ==> {
            &&& res@.len() == 2
            &&& res@[0] is Remember
            &&& res@[1] is PassOn
        },
        callback is SourceOperationMaskForDraggingContext || callback is DraggingSessionEndedAtPoint
            || callback is DraggingSessionMovedToPoint || callback is MouseDownCanMoveWindow
            || callback is ShouldDelayWindowOrdering ==> res@.len() == 0,
{
}

/// The class of the view gets a method for every message, and for none twice.
pub proof fn law_view_gets_a_method_for_every_message(callback: Callback, res: Vec<Callback>)
    requires
        call_ensures(prepare_flutter, (), res),
    ensures
        exists|k: int| 0 <= k < res@.len() && #[trigger] res@[k] == callback,
        forall|k: int, l: int|
            0 <= k < l < res@.len() ==> #[trigger] res@[k] != #[trigger] res@[l],
{
    law_every_callback_registered_once(callback);
}

} // verus!
