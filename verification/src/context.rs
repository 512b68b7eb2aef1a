//! The drag source of one view.
use crate::error::{NativeExtensionsError, NativeExtensionsResult};
use crate::event::{
    is_escape, is_unfinished, leaves_gesture_unfinished, opposite, opposite_of, user_cancels,
    CurrentEvent, MomentumEvent, MouseEvent, MouseUpType, NSEventType,
    CG_SCROLL_WHEEL_EVENT_SCROLL_PHASE, NS_EVENT_PHASE_ENDED, NS_EVENT_TYPE_LEFT_MOUSE_DOWN,
};
use crate::operation::{
    combine_masks, operation_to_report, reported_operation, union_of, DropOperation,
    NSDragOperation, NS_DRAG_OPERATION_NONE,
};
use crate::session::{is_local_data, DragSession, DragSessionId};
use std::collections::HashMap;
use vstd::prelude::*;

verus! {

/// A number of the platform, such as the one that AppKit gives each dragging session.
pub type NSInteger = isize;

/// Names a view. Two views that exist at the same time have different names.
pub type ViewId = usize;

/// Names a drag source towards the application.
#[derive(Clone, Copy, Debug, PartialEq, Eq, Structural)]
pub struct PlatformDragContextId(pub i64);

/// How long the data of a drag stays available after its end, in seconds. This gives the drop
/// site the time to ask for it.
pub const RELEASE_DELAY_SECONDS: u64 = 3;

/// The drag source of one view: the last events that the view got, and the drags under way.
///
/// `E` stands for the platform's events, `H` for the handles that keep the data of a drag
/// available, `V` for local data, and `I` for the images of dragged items.
#[derive(Debug)]
pub struct PlatformDragContext<E, H, V, I> {
    id: PlatformDragContextId,
    view: ViewId,
    last_mouse_down_event: Option<MouseEvent<E>>,
    last_mouse_up_event: Option<MouseEvent<E>>,
    last_momentum_event: Option<MomentumEvent<E>>,
    sessions: HashMap<NSInteger, DragSession<H, V, I>>,
}

/// A drag source as a value.
#[verifier::ext_equal]
pub struct ContextView<E, H, V, I> {
    /// The name of the source.
    pub id: PlatformDragContextId,
    /// The view.
    pub view: ViewId,
    /// The last event of a mouse button going down, left or right.
    pub last_mouse_down: Option<MouseEvent<E>>,
    /// The last event of a mouse button going up, left or right.
    pub last_mouse_up: Option<MouseEvent<E>>,
    /// The last scroll, magnify or rotate event.
    pub last_momentum: Option<MomentumEvent<E>>,
    /// The drags under way, by the number of their dragging session.
    pub sessions: Map<NSInteger, DragSession<H, V, I>>,
}

/// The two events that `synthesize_mouse_up_event` may make, in this order.
#[derive(Clone, Copy, Debug, PartialEq, Eq, Structural)]
pub enum MouseUpStep {
    /// Finish the gesture that is under way.
    FinishMomentum,
    /// Let go of the mouse button.
    ReleaseButton,
}

/// An event to be made and sent to the window of the view.
#[derive(Debug)]
pub enum SynthesizedEvent<'a, E> {
    /// A copy of `event`, of type `event_type`.
    MouseUp {
        /// The event to copy.
        event: &'a E,
        /// The type that the copy gets.
        event_type: MouseUpType,
    },
    /// A copy of `event`, with the integer field `field` set to `value`.
    MomentumEnd {
        /// The event to copy.
        event: &'a E,
        /// The number of the field that changes.
        field: u32,
        /// What the field changes to.
        value: i64,
    },
}

/// What is to be done to open a dragging session of the platform.
#[derive(Debug)]
pub enum OpenAction<T> {
    /// Keep the mouse button that went down from ordering the windows anew.
    PreventWindowOrdering,
    /// Begin a session with all items of the drag.
    BeginDraggingSession {
        /// The mouse event that the drag begins with.
        event: T,
        /// The view that is the source of the session.
        source: ViewId,
    },
    /// Whether the drag image slides back if nothing is dropped.
    SetAnimatesToStartingPositionsOnCancelOrFail(bool),
}

/// What is to be done at the end of a drag.
#[derive(Debug)]
pub enum EndAction<H> {
    /// Tell the delegate how the drag ended.
    NotifyDelegate {
        /// The name of the drag source.
        id: PlatformDragContextId,
        /// The name of the drag.
        session_id: DragSessionId,
        /// How the drag ended.
        operation: DropOperation,
    },
    /// Let the window notice where the pointer is now.
    SynthesizeMouseMove,
    /// Hold on to the handles of the drag for a while, then let go of them.
    ReleaseLater {
        /// How long to hold the handles.
        seconds: u64,
        /// The handles.
        data_provider_handles: Vec<H>,
    },
}

/// What is to be told the delegate when a drag moves. The place that it moved to goes with it.
#[derive(Clone, Copy, Debug, PartialEq, Eq, Structural)]
pub struct MoveNotification {
    /// The name of the drag source.
    pub id: PlatformDragContextId,
    /// The name of the drag.
    pub session_id: DragSessionId,
}

/// How to find out whether the order of the windows stays as it is while a mouse button is down.
#[derive(Clone, Copy, Debug, PartialEq, Eq, Structural)]
pub enum OrderingQuery {
    /// The answer is known.
    Answer(bool),
    /// Ask the delegate whether the place of the event can be dragged.
    AskDelegate(PlatformDragContextId),
}

/// What became of a question to the delegate.
#[derive(Clone, Copy, Debug, PartialEq, Eq, Structural)]
pub enum PromiseResult {
    /// The delegate answered.
    Answered {
        /// The answer.
        value: bool,
    },
    /// The delegate will not answer.
    Cancelled,
}

impl<E, H, V, I> ContextView<E, H, V, I> {
    /// The source once a mouse button has gone down.
    pub open spec fn after_mouse_down(self, event: MouseEvent<E>) -> Self {
        ContextView { last_mouse_down: Some(event), ..self }
    }

    /// The source once a mouse button has gone up.
    pub open spec fn after_mouse_up(self, event: MouseEvent<E>) -> Self {
        ContextView { last_mouse_up: Some(event), ..self }
    }

    /// The source once a scroll, magnify or rotate event has come.
    pub open spec fn after_momentum_event(self, event: MomentumEvent<E>) -> Self {
        ContextView { last_momentum: Some(event), ..self }
    }

    /// The source once the platform has opened a session for a drag.
    pub open spec fn after_session_opened(
        self,
        session: DragSession<H, V, I>,
        dragging_sequence_number: NSInteger,
    ) -> Self {
        ContextView { sessions: self.sessions.insert(dragging_sequence_number, session), ..self }
    }

    /// The source once a drag has ended.
    pub open spec fn after_drag_ended(self, dragging_sequence_number: NSInteger) -> Self {
        ContextView { sessions: self.sessions.remove(dragging_sequence_number), ..self }
    }

    /// The event that finishes the gesture under way, if there is a gesture to finish and a window
    /// to send it to.
    pub open spec fn momentum_end(self, has_window: bool) -> Option<SynthesizedEvent<'static, E>> {
        match self.last_momentum {
            Some(last) => if is_unfinished(last.phase) && has_window {
                Some(
                    SynthesizedEvent::MomentumEnd {
                        event: &last.event,
                        field: CG_SCROLL_WHEEL_EVENT_SCROLL_PHASE,
                        value: NS_EVENT_PHASE_ENDED as i64,
                    },
                )
            } else {
                None
            },
            None => None,
        }
    }

    /// The event that lets go of the mouse button, if one has gone down and there is a window to
    /// send it to.
    pub open spec fn button_release(self, has_window: bool) -> Option<
        SynthesizedEvent<'static, E>,
    > {
        match self.last_mouse_down {
            Some(last) => match opposite_of(last.event_type) {
                Some(event_type) => if has_window {
                    Some(SynthesizedEvent::MouseUp { event: &last.event, event_type })
                } else {
                    None
                },
                None => None,
            },
            None => None,
        }
    }

    /// What is to be done to open the platform's session for a drag, in this order, once a mouse
    /// button has gone down.
    pub open spec fn open_actions(self, session: DragSession<H, V, I>) -> Seq<
        OpenAction<&'static E>,
    > {
        seq![
            OpenAction::PreventWindowOrdering,
            OpenAction::BeginDraggingSession {
                event: &self.last_mouse_down->0.event,
                source: self.view,
            },
            OpenAction::SetAnimatesToStartingPositionsOnCancelOrFail(
                session.configuration.animates_to_starting_position_on_cancel_or_fail,
            ),
        ]
    }

    /// What is to be done at the end of a drag, in this order.
    pub open spec fn end_actions(
        self,
        dragging_sequence_number: NSInteger,
        operations: Seq<DropOperation>,
        current_event: Option<CurrentEvent>,
        has_delegate: bool,
    ) -> Seq<EndAction<H>> {
        let session = self.sessions[dragging_sequence_number];
        let notification = if has_delegate {
            seq![
                EndAction::NotifyDelegate {
                    id: self.id,
                    session_id: session.session_id,
                    operation: reported_operation(operations, is_escape(current_event)),
                },
            ]
        } else {
            seq![]
        };
        notification + seq![
            EndAction::SynthesizeMouseMove,
            EndAction::ReleaseLater {
                seconds: RELEASE_DELAY_SECONDS,
                data_provider_handles: session.data_provider_handles,
            },
        ]
    }

    /// The operations that a drag offers to drop sites.
    pub open spec fn offered_operations(
        self,
        dragging_sequence_number: NSInteger,
    ) -> NSDragOperation {
        if self.sessions.contains_key(dragging_sequence_number) {
            union_of(self.sessions[dragging_sequence_number].configuration.allowed_operations@)
        } else {
            NS_DRAG_OPERATION_NONE
        }
    }

    /// Number `n` belongs to a drag that the application knows as `session_id`.
    pub open spec fn has_name(self, n: NSInteger, session_id: DragSessionId) -> bool {
        self.sessions.contains_key(n) && self.sessions[n].session_id == session_id
    }

    /// Some drag goes by that name.
    pub open spec fn knows_name(self, session_id: DragSessionId) -> bool {
        exists|n: NSInteger| #[trigger] self.has_name(n, session_id)
    }

    /// How to find out whether the order of the windows stays as it is.
    pub open spec fn ordering_query(
        self,
        event_type: NSEventType,
        has_delegate: bool,
    ) -> OrderingQuery {
        if event_type == NS_EVENT_TYPE_LEFT_MOUSE_DOWN && has_delegate {
            OrderingQuery::AskDelegate(self.id)
        } else {
            OrderingQuery::Answer(false)
        }
    }
}

/// What the delegate's answer, once there is one, says about the order of the windows.
pub open spec fn ordering_answer(result: PromiseResult) -> bool {
    result == (PromiseResult::Answered { value: true })
}

/// Looks at the question that the delegate was asked. Without an answer yet, the run loop is to be
/// polled once before looking again.
pub fn poll_ordering_answer(result: Option<PromiseResult>) -> (res: Option<bool>)
    ensures
        res == match result {
            Some(result) => Some(ordering_answer(result)),
            None => None,
        },
{
    match result {
        Some(PromiseResult::Answered { value }) => Some(value),
        Some(PromiseResult::Cancelled) => Some(false),
        None => None,
    }
}

impl<E, H, V, I> View for PlatformDragContext<E, H, V, I> {
    type V = ContextView<E, H, V, I>;

    closed spec fn view(&self) -> ContextView<E, H, V, I> {
        ContextView {
            id: self.id,
            view: self.view,
            last_mouse_down: self.last_mouse_down_event,
            last_mouse_up: self.last_mouse_up_event,
            last_momentum: self.last_momentum_event,
            sessions: self.sessions@,
        }
    }
}

impl<E, H, V, I> PlatformDragContext<E, H, V, I> {
    /// A drag source for `view` that has seen no event and has no drag under way.
    pub fn new(id: PlatformDragContextId, view: ViewId) -> (res: Self)
        ensures
            res@ == (ContextView {
                id,
                view,
                last_mouse_down: None::<MouseEvent<E>>,
                last_mouse_up: None::<MouseEvent<E>>,
                last_momentum: None::<MomentumEvent<E>>,
                sessions: Map::<NSInteger, DragSession<H, V, I>>::empty(),
            }),
    {
        PlatformDragContext {
            id,
            view,
            last_mouse_down_event: None,
            last_mouse_up_event: None,
            last_momentum_event: None,
            sessions: HashMap::new(),
        }
    }

    /// The name of the source.
    pub fn id(&self) -> (res: PlatformDragContextId)
        ensures
            res == self@.id,
    {
        self.id
    }

    /// The view.
    pub fn view_id(&self) -> (res: ViewId)
        ensures
            res == self@.view,
    {
        self.view
    }

    /// Whether the images of the dragged items have to be drawn as one.
    pub fn needs_combined_drag_image() -> (res: bool)
        ensures
            res == false,
    {
        false
    }

    /// The left mouse button went down.
    pub fn on_mouse_down(&mut self, event: MouseEvent<E>)
        ensures
            final(self)@ == old(self)@.after_mouse_down(event),
    {
        self.last_mouse_down_event = Some(event);
    }

    /// The left mouse button went up.
    pub fn on_mouse_up(&mut self, event: MouseEvent<E>)
        ensures
            final(self)@ == old(self)@.after_mouse_up(event),
    {
        self.last_mouse_up_event = Some(event);
    }

    /// The right mouse button went down.
    pub fn on_right_mouse_down(&mut self, event: MouseEvent<E>)
        ensures
            final(self)@ == old(self)@.after_mouse_down(event),
    {
        self.last_mouse_down_event = Some(event);
    }

    /// The right mouse button went up.
    pub fn on_right_mouse_up(&mut self, event: MouseEvent<E>)
        ensures
            final(self)@ == old(self)@.after_mouse_up(event),
    {
        self.last_mouse_up_event = Some(event);
    }

    /// A scroll, magnify or rotate event came.
    pub fn on_momentum_event(&mut self, event: MomentumEvent<E>)
        ensures
            final(self)@ == old(self)@.after_momentum_event(event),
    {
        self.last_momentum_event = Some(event);
    }

    /// The event that finishes the gesture under way.
    ///
    /// A gesture that is left unfinished when a drag starts keeps the recognizer of pan gestures
    /// waiting.
    pub fn finish_momentum_events(&self, has_window: bool) -> (res: Option<SynthesizedEvent<'_, E>>)
        ensures
            res == self@.momentum_end(has_window),
    {
        match &self.last_momentum_event {
            Some(last) => if leaves_gesture_unfinished(last.phase) && has_window {
                Some(
                    SynthesizedEvent::MomentumEnd {
                        event: &last.event,
                        field: CG_SCROLL_WHEEL_EVENT_SCROLL_PHASE,
                        value: NS_EVENT_PHASE_ENDED as i64,
                    },
                )
            } else {
                None
            },
            None => None,
        }
    }

    /// The event to send at `step`, and the step to go on with once it is sent.
    ///
    /// Begin at `MouseUpStep::FinishMomentum`. Sending an event may change the source, so each step
    /// is worked out when the one before it is done.
    pub fn synthesize_mouse_up_event(&self, step: MouseUpStep, has_window: bool) -> (res: (
        Option<SynthesizedEvent<'_, E>>,
        Option<MouseUpStep>,
    ))
        ensures
            step == MouseUpStep::FinishMomentum ==> res == (
                self@.momentum_end(has_window),
                Some(MouseUpStep::ReleaseButton),
            ),
            step == MouseUpStep::ReleaseButton ==> res == (
                self@.button_release(has_window),
                None::<MouseUpStep>,
            ),
    {
        match step {
            MouseUpStep::FinishMomentum => (
                self.finish_momentum_events(has_window),
                Some(MouseUpStep::ReleaseButton),
            ),
            MouseUpStep::ReleaseButton => {
                let event = match &self.last_mouse_down_event {
                    Some(last) => match opposite(last.event_type) {
                        Some(event_type) => if has_window {
                            Some(SynthesizedEvent::MouseUp { event: &last.event, event_type })
                        } else {
                            None
                        },
                        None => None,
                    },
                    None => None,
                };
                (event, None)
            },
        }
    }

    /// What to do to open the platform's session for a drag, in order.
    pub(crate) fn begin_dragging(&self, session: &DragSession<H, V, I>) -> (res:
        NativeExtensionsResult<Vec<OpenAction<&E>>>)
        ensures
            match self@.last_mouse_down {
                Some(_) => res matches Ok(actions) && actions@ == self@.open_actions(*session),
                None => res matches Err(error) && error
                    == NativeExtensionsError::MouseEventNotFound,
            },
    {
        match &self.last_mouse_down_event {
            Some(last) => {
                let mut actions: Vec<OpenAction<&E>> = Vec::new();
                actions.push(OpenAction::PreventWindowOrdering);
                actions.push(
                    OpenAction::BeginDraggingSession { event: &last.event, source: self.view },
                );
                actions.push(
                    OpenAction::SetAnimatesToStartingPositionsOnCancelOrFail(
                        session.configuration.animates_to_starting_position_on_cancel_or_fail,
                    ),
                );
                Ok(actions)
            },
            None => Err(NativeExtensionsError::MouseEventNotFound),
        }
    }

    /// The platform opened a session for a drag, and gave it a number.
    pub fn session_opened(
        &mut self,
        session: DragSession<H, V, I>,
        dragging_sequence_number: NSInteger,
    )
        ensures
            final(self)@ == old(self)@.after_session_opened(session, dragging_sequence_number),
    {
        broadcast use vstd::std_specs::hash::group_hash_axioms;

        self.sessions.insert(dragging_sequence_number, session);
    }

    /// Whether the drag of that number is under way.
    pub fn has_session(&self, dragging_sequence_number: NSInteger) -> (res: bool)
        ensures
            res == self@.sessions.contains_key(dragging_sequence_number),
    {
        broadcast use vstd::std_specs::hash::group_hash_axioms;

        self.sessions.contains_key(&dragging_sequence_number)
    }

    /// A drag ended: forgets it, and says what is to be done about it, in order.
    ///
    /// `operations` are the operations that the platform reports, the one that counts first;
    /// `current_event` is the event that the application is working on.
    pub fn drag_ended(
        &mut self,
        dragging_sequence_number: NSInteger,
        operations: Vec<DropOperation>,
        current_event: Option<CurrentEvent>,
        has_delegate: bool,
    ) -> (res: Vec<EndAction<H>>)
        requires
            old(self)@.sessions.contains_key(dragging_sequence_number),
        ensures
            final(self)@ == old(self)@.after_drag_ended(dragging_sequence_number),
            res@ == old(self)@.end_actions(
                dragging_sequence_number,
                operations@,
                current_event,
                has_delegate,
            ),
    {
        broadcast use vstd::std_specs::hash::group_hash_axioms;

        let user_cancelled = user_cancels(current_event);
        let session = self.sessions.remove(&dragging_sequence_number).unwrap();
        let operation = operation_to_report(&operations, user_cancelled);
        let mut actions: Vec<EndAction<H>> = Vec::new();
        if has_delegate {
            actions.push(
                EndAction::NotifyDelegate { id: self.id, session_id: session.session_id, operation },
            );
        }
        actions.push(EndAction::SynthesizeMouseMove);
        actions.push(
            EndAction::ReleaseLater {
                seconds: RELEASE_DELAY_SECONDS,
                data_provider_handles: session.data_provider_handles,
            },
        );
        actions
    }

    /// A drag moved: what is to be told the delegate, if there is one.
    pub fn drag_moved(&self, dragging_sequence_number: NSInteger, has_delegate: bool) -> (res:
        Option<MoveNotification>)
        requires
            self@.sessions.contains_key(dragging_sequence_number),
        ensures
            res == if has_delegate {
                Some(
                    MoveNotification {
                        id: self@.id,
                        session_id: self@.sessions[dragging_sequence_number].session_id,
                    },
                )
            } else {
                None
            },
    {
        broadcast use vstd::std_specs::hash::group_hash_axioms;

        let session = self.sessions.get(&dragging_sequence_number).unwrap();
        if has_delegate {
            Some(MoveNotification { id: self.id, session_id: session.session_id })
        } else {
            None
        }
    }

    /// How to find out whether the order of the windows stays as it is, given the type of the mouse
    /// event that would change it.
    pub fn should_delay_window_ordering(&self, event_type: NSEventType, has_delegate: bool) -> (res:
        OrderingQuery)
        ensures
            res == self@.ordering_query(event_type, has_delegate),
    {
        if event_type == NS_EVENT_TYPE_LEFT_MOUSE_DOWN {
            if has_delegate {
                OrderingQuery::AskDelegate(self.id)
            } else {
                OrderingQuery::Answer(false)
            }
        } else {
            OrderingQuery::Answer(false)
        }
    }

    /// The operations that a drag offers to drop sites.
    pub fn source_operation_mask_for_dragging_context(
        &self,
        dragging_sequence_number: NSInteger,
    ) -> (res: NSDragOperation)
        ensures
            res == self@.offered_operations(dragging_sequence_number),
    {
        broadcast use vstd::std_specs::hash::group_hash_axioms;

        match self.sessions.get(&dragging_sequence_number) {
            Some(session) => combine_masks(&session.configuration.allowed_operations),
            None => NS_DRAG_OPERATION_NONE,
        }
    }
}

impl<E, H, V: Clone, I> PlatformDragContext<E, H, V, I> {
    /// The local data of the drag of that number, if it is under way.
    pub fn get_local_data(&self, dragging_sequence_number: NSInteger) -> (res: Option<Vec<V>>)
        ensures
            res is Some <==> self@.sessions.contains_key(dragging_sequence_number),
            res matches Some(data) ==> is_local_data(
                self@.sessions[dragging_sequence_number].configuration.items@,
                data@,
            ),
    {
        broadcast use vstd::std_specs::hash::group_hash_axioms;

        match self.sessions.get(&dragging_sequence_number) {
            Some(session) => Some(session.configuration.get_local_data()),
            None => None,
        }
    }

    /// The local data of a drag of that name. Where several drags share the name, any of them may
    /// be picked.
    pub fn get_local_data_for_session_id(&self, session_id: DragSessionId) -> (res:
        NativeExtensionsResult<Vec<V>>)
        ensures
            res is Ok <==> exists|n: NSInteger| #[trigger] self@.has_name(n, session_id),
            res matches Ok(data) ==> exists|n: NSInteger| #[trigger]
                self@.has_name(n, session_id) && is_local_data(
                    self@.sessions[n].configuration.items@,
                    data@,
                ),
            res matches Err(error) ==> error == NativeExtensionsError::DragSessionNotFound
                && !self@.knows_name(session_id),
    {
        broadcast use vstd::std_specs::hash::group_hash_axioms;

        for (n, session) in it: self.sessions.iter()
            invariant
                forall|i: int|
                    0 <= i < it.index() ==> (#[trigger] it.seq()[i]).1.session_id != session_id,
        {
            if session.session_id == session_id {
                assert(self@.has_name(*n, session_id));
                return Ok(session.configuration.get_local_data());
            }
        }
        assert forall|n: NSInteger| !#[trigger] self@.has_name(n, session_id) by {

        }
        Err(NativeExtensionsError::DragSessionNotFound)
    }
}

} // verus!
