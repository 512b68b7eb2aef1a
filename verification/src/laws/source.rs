//! What the calls to a drag source do, in terms of what goes in and what comes out.
use crate::context::{
    poll_ordering_answer, ContextView, EndAction, MouseUpStep, MoveNotification, NSInteger,
    OrderingQuery, PlatformDragContext, PlatformDragContextId, PromiseResult, SynthesizedEvent,
    ViewId,
};
use crate::error::{NativeExtensionsError, NativeExtensionsResult};
use crate::event::{CurrentEvent, MomentumEvent, MouseEvent, MouseUpType, NSEventType};
use crate::laws::{after, after_all, law_mouse_down_is_remembered, ContextEvent};
use crate::operation::{lemma_union_meets_what_a_part_meets, DropOperation, NSDragOperation};
use crate::session::{is_local_data, DragSession, DragSessionId};
use vstd::prelude::*;

verus! {

/// A new source has the name and the view that it was made with, has seen no event, and has no drag
/// under way.
pub proof fn law_new_source_has_seen_nothing<E, H, V, I>(
    id: PlatformDragContextId,
    view: ViewId,
    res: PlatformDragContext<E, H, V, I>,
)
    requires
        call_ensures(PlatformDragContext::<E, H, V, I>::new, (id, view), res),
    ensures
        res@.id == id,
        res@.view == view,
        res@.last_mouse_down is None,
        res@.last_mouse_up is None,
        res@.last_momentum is None,
        forall|n: NSInteger| !#[trigger] res@.sessions.contains_key(n),
{
}

/// A source tells its name and its view.
pub proof fn law_source_tells_name_and_view<E, H, V, I>(
    source: &PlatformDragContext<E, H, V, I>,
    id: PlatformDragContextId,
    view: ViewId,
)
    requires
        call_ensures(PlatformDragContext::<E, H, V, I>::id, (source,), id),
        call_ensures(PlatformDragContext::<E, H, V, I>::view_id, (source,), view),
    ensures
        id == source@.id,
        view == source@.view,
{
}

/// The event of a mouse button going down, left or right, takes the place of the one before it,
/// whatever the source had seen. Nothing else changes.
pub proof fn law_mouse_down_is_stored<E, H, V, I>(
    source: &mut PlatformDragContext<E, H, V, I>,
    event: MouseEvent<E>,
)
    requires
        ({
            ||| call_ensures(PlatformDragContext::<E, H, V, I>::on_mouse_down, (source, event), ())
            ||| call_ensures(
                PlatformDragContext::<E, H, V, I>::on_right_mouse_down,
                (source, event),
                (),
            )
        }),
    ensures
        final(source)@ == (ContextView { last_mouse_down: Some(event), ..old(source)@ }),
        final(source)@ == after(old(source)@, ContextEvent::MouseDown(event)),
{
}

/// The event of a mouse button going up, left or right, takes the place of the one before it,
/// whatever the source had seen. Nothing else changes.
pub proof fn law_mouse_up_is_stored<E, H, V, I>(
    source: &mut PlatformDragContext<E, H, V, I>,
    event: MouseEvent<E>,
)
    requires
        ({
            ||| call_ensures(PlatformDragContext::<E, H, V, I>::on_mouse_up, (source, event), ())
            ||| call_ensures(
                PlatformDragContext::<E, H, V, I>::on_right_mouse_up,
                (source, event),
                (),
            )
        }),
    ensures
        final(source)@ == (ContextView { last_mouse_up: Some(event), ..old(source)@ }),
        final(source)@ == after(old(source)@, ContextEvent::MouseUp(event)),
{
}

/// A gesture event takes the place of the one before it, whatever the source had seen. Nothing else
/// changes.
pub proof fn law_gesture_event_is_stored<E, H, V, I>(
    source: &mut PlatformDragContext<E, H, V, I>,
    event: MomentumEvent<E>,
)
    requires
        call_ensures(PlatformDragContext::<E, H, V, I>::on_momentum_event, (source, event), ()),
    ensures
        final(source)@ == (ContextView { last_momentum: Some(event), ..old(source)@ }),
        final(source)@ == after(old(source)@, ContextEvent::Momentum(event)),
{
}

/// A gesture event is kept until another one comes.
pub proof fn law_gesture_event_is_remembered<E, H, V, I>(
    context: ContextView<E, H, V, I>,
    gesture: MomentumEvent<E>,
    events: Seq<ContextEvent<E, H, V, I>>,
)
    requires
        forall|i: int| 0 <= i < events.len() ==> !(#[trigger] events[i] is Momentum),
    ensures
        after_all(after(context, ContextEvent::Momentum(gesture)), events).last_momentum == Some(
            gesture,
        ),
    decreases events.len(),
{
    if events.len() > 0 {
        let earlier = events.drop_last();
        assert forall|i: int| 0 <= i < earlier.len() implies !(
        #[trigger] earlier[i] is Momentum) by {
            assert(earlier[i] == events[i]);
        }
        assert(!(events[events.len() - 1] is Momentum));
        law_gesture_event_is_remembered(context, gesture, earlier);
    }
}

/// A gesture that the last gesture event leaves unfinished is finished by a copy of that event
/// whose phase says so, if there is a window to send it to. This is so whatever mouse events and
/// drags came after it. Where the event is the last of its gesture, or belongs to none, there is
/// nothing to finish.
pub proof fn law_unfinished_gesture_is_finished<'a, E, H, V, I>(
    context: ContextView<E, H, V, I>,
    gesture: MomentumEvent<E>,
    events: Seq<ContextEvent<E, H, V, I>>,
    source: &'a PlatformDragContext<E, H, V, I>,
    has_window: bool,
    res: Option<SynthesizedEvent<'a, E>>,
)
    requires
        forall|i: int| 0 <= i < events.len() ==> !(#[trigger] events[i] is Momentum),
        source@ == after_all(after(context, ContextEvent::Momentum(gesture)), events),
        ({
            ||| call_ensures(
                PlatformDragContext::<E, H, V, I>::finish_momentum_events,
                (source, has_window),
                res,
            )
            ||| call_ensures(
                PlatformDragContext::<E, H, V, I>::synthesize_mouse_up_event,
                (source, MouseUpStep::FinishMomentum, has_window),
                (res, Some(MouseUpStep::ReleaseButton)),
            )
        }),
    ensures
        has_window && gesture.phase != 0 && gesture.phase != 8 && gesture.phase != 16 ==> res
            == Some(SynthesizedEvent::MomentumEnd { event: &gesture.event, field: 99, value: 8 }),
        !has_window || gesture.phase == 0 || gesture.phase == 8 || gesture.phase == 16 ==> res
            is None,
{
    law_gesture_event_is_remembered(context, gesture, events);
}

/// Without a gesture event there is no gesture to finish.
pub proof fn law_no_gesture_nothing_to_finish<'a, E, H, V, I>(
    source: &'a PlatformDragContext<E, H, V, I>,
    has_window: bool,
    res: Option<SynthesizedEvent<'a, E>>,
)
    requires
        source@.last_momentum is None,
        call_ensures(
            PlatformDragContext::<E, H, V, I>::finish_momentum_events,
            (source, has_window),
            res,
        ),
    ensures
        res is None,
{
}

/// The mouse button that went down last is let go by a copy of its event, as the left or the right
/// button, if there is a window to send it to. This is so whatever came after it but another mouse
/// button going down. Other events of that kind are not undone.
pub proof fn law_last_button_is_released<'a, E, H, V, I>(
    context: ContextView<E, H, V, I>,
    down: MouseEvent<E>,
    events: Seq<ContextEvent<E, H, V, I>>,
    source: &'a PlatformDragContext<E, H, V, I>,
    has_window: bool,
    res: (Option<SynthesizedEvent<'a, E>>, Option<MouseUpStep>),
)
    requires
        forall|i: int| 0 <= i < events.len() ==> !(#[trigger] events[i] is MouseDown),
        source@ == after_all(after(context, ContextEvent::MouseDown(down)), events),
        call_ensures(
            PlatformDragContext::<E, H, V, I>::synthesize_mouse_up_event,
            (source, MouseUpStep::ReleaseButton, has_window),
            res,
        ),
    ensures
        has_window && down.event_type == 1 ==> res.0 == Some(
            SynthesizedEvent::MouseUp { event: &down.event, event_type: MouseUpType::LeftMouseUp },
        ),
        has_window && down.event_type == 3 ==> res.0 == Some(
            SynthesizedEvent::MouseUp { event: &down.event, event_type: MouseUpType::RightMouseUp },
        ),
        !has_window || down.event_type != 1 && down.event_type != 3 ==> res.0 is None,
        res.1 is None,
{
    law_mouse_down_is_remembered(context, down, events);
}

/// Letting go of the mouse takes two steps: the gesture is finished first, and the button is let go
/// after it. A button that did not go down is not let go.
pub proof fn law_mouse_is_released_in_two_steps<'a, E, H, V, I>(
    source: &'a PlatformDragContext<E, H, V, I>,
    has_window: bool,
    gesture_end: Option<SynthesizedEvent<'a, E>>,
    first: (Option<SynthesizedEvent<'a, E>>, Option<MouseUpStep>),
    second: (Option<SynthesizedEvent<'a, E>>, Option<MouseUpStep>),
)
    requires
        call_ensures(
            PlatformDragContext::<E, H, V, I>::finish_momentum_events,
            (source, has_window),
            gesture_end,
        ),
        call_ensures(
            PlatformDragContext::<E, H, V, I>::synthesize_mouse_up_event,
            (source, MouseUpStep::FinishMomentum, has_window),
            first,
        ),
        call_ensures(
            PlatformDragContext::<E, H, V, I>::synthesize_mouse_up_event,
            (source, MouseUpStep::ReleaseButton, has_window),
            second,
        ),
    ensures
        first.0 == gesture_end,
        first.1 == Some(MouseUpStep::ReleaseButton),
        second.1 is None,
        source@.last_mouse_down is None ==> second.0 is None,
{
}

/// A drag is under way by its number once its session is open, in place of any drag that had the
/// number before. Nothing else changes.
pub proof fn law_opened_session_is_kept<E, H, V, I>(
    source: &mut PlatformDragContext<E, H, V, I>,
    session: DragSession<H, V, I>,
    n: NSInteger,
)
    requires
        call_ensures(PlatformDragContext::<E, H, V, I>::session_opened, (source, session, n), ()),
    ensures
        final(source)@ == (ContextView {
            sessions: old(source)@.sessions.insert(n, session),
            ..old(source)@
        }),
        final(source)@ == after(old(source)@, ContextEvent::SessionOpened(session, n)),
{
}

/// A source says of a number whether a drag of that number is under way.
pub proof fn law_source_knows_its_drags<E, H, V, I>(
    source: &PlatformDragContext<E, H, V, I>,
    n: NSInteger,
    res: bool,
)
    requires
        call_ensures(PlatformDragContext::<E, H, V, I>::has_session, (source, n), res),
    ensures
        res <==> source@.sessions.contains_key(n),
{
}

/// `actions` end the drag `n` of a source: the delegate, if there is one, hears first and of this
/// drag, then the window notices the pointer, and then the handles of the drag are held on to for
/// three seconds. There is nothing else.
pub open spec fn ends_drag<E, H, V, I>(
    source: ContextView<E, H, V, I>,
    n: NSInteger,
    operations: Seq<DropOperation>,
    current_event: Option<CurrentEvent>,
    has_delegate: bool,
    actions: Seq<EndAction<H>>,
) -> bool {
    let told: int = if has_delegate {
        1
    } else {
        0
    };
    &&& actions.len() == told + 2
    &&& has_delegate ==> {
        &&& actions[0] matches EndAction::NotifyDelegate { id, session_id, operation }
        &&& id == source.id
        &&& session_id == source.sessions[n].session_id
        &&& is_outcome(operations, current_event, operation)
    }
    &&& actions[told] is SynthesizeMouseMove
    &&& actions[told + 1] matches EndAction::ReleaseLater { seconds, data_provider_handles }
    &&& seconds == 3
    &&& data_provider_handles == source.sessions[n].data_provider_handles
}

/// A drag for which the platform reports `operations` ended with `operation`.
pub open spec fn is_outcome(
    operations: Seq<DropOperation>,
    current_event: Option<CurrentEvent>,
    operation: DropOperation,
) -> bool {
    let did_nothing = operations.len() == 0 || operations[0] == DropOperation::NoOperation;
    let escaped = current_event matches Some(event) && event.event_type == 10 && event.key_code
        == 0x35;
    &&& !did_nothing ==> operation == operations[0]
    &&& did_nothing && escaped ==> operation == DropOperation::UserCancelled
    &&& did_nothing && !escaped ==> operation == DropOperation::NoOperation
}

/// At the end of a drag exactly one drag is forgotten, the one that ended, and what is to be done
/// ends that drag.
pub proof fn law_ended_drag_is_dealt_with<E, H, V, I>(
    source: &mut PlatformDragContext<E, H, V, I>,
    n: NSInteger,
    operations: Vec<DropOperation>,
    current_event: Option<CurrentEvent>,
    has_delegate: bool,
    res: Vec<EndAction<H>>,
)
    requires
        old(source)@.sessions.contains_key(n),
        call_ensures(
            PlatformDragContext::<E, H, V, I>::drag_ended,
            (source, n, operations, current_event, has_delegate),
            res,
        ),
    ensures
        final(source)@ == (ContextView {
            sessions: old(source)@.sessions.remove(n),
            ..old(source)@
        }),
        final(source)@ == after(old(source)@, ContextEvent::DragEnded(n)),
        ends_drag(old(source)@, n, operations@, current_event, has_delegate, res@),
{
}

/// The delegate is told the first operation that the platform reports, if that is one at all,
/// whatever event the application is working on. Otherwise the drag was called off if that event is
/// the escape key going down, and did nothing if it is not.
pub proof fn law_delegate_is_told_the_outcome<E, H, V, I>(
    source: &mut PlatformDragContext<E, H, V, I>,
    n: NSInteger,
    operations: Vec<DropOperation>,
    current_event: Option<CurrentEvent>,
    res: Vec<EndAction<H>>,
)
    requires
        old(source)@.sessions.contains_key(n),
        call_ensures(
            PlatformDragContext::<E, H, V, I>::drag_ended,
            (source, n, operations, current_event, true),
            res,
        ),
    ensures
        res@.len() > 0,
        res@[0] is NotifyDelegate,
        operations@.len() > 0 && operations@[0] != DropOperation::NoOperation
            ==> res@[0]->operation == operations@[0],
        operations@.len() == 0 || operations@[0] == DropOperation::NoOperation ==> {
            &&& res@[0]->operation == DropOperation::UserCancelled <==> (current_event is Some
                && current_event->0.event_type == 10 && current_event->0.key_code == 0x35)
            &&& res@[0]->operation == DropOperation::NoOperation <==> !(current_event is Some
                && current_event->0.event_type == 10 && current_event->0.key_code == 0x35)
        },
        forall|k: int| 1 <= k < res@.len() ==> !(#[trigger] res@[k] is NotifyDelegate),
{
}

/// The delegate, if there is one, hears of every move of a drag, under the name of the drag.
pub proof fn law_delegate_hears_of_moves<E, H, V, I>(
    source: &PlatformDragContext<E, H, V, I>,
    n: NSInteger,
    has_delegate: bool,
    res: Option<MoveNotification>,
)
    requires
        source@.sessions.contains_key(n),
        call_ensures(PlatformDragContext::<E, H, V, I>::drag_moved, (source, n, has_delegate), res),
    ensures
        res is Some <==> has_delegate,
        res matches Some(told) ==> told.id == source@.id && told.session_id
            == source@.sessions[n].session_id,
{
}

/// The delegate is asked about the order of the windows exactly if there is one and the left mouse
/// button goes down, and under the name of the source. Otherwise the order is not kept.
pub proof fn law_delegate_is_asked_when_left_button_goes_down<E, H, V, I>(
    source: &PlatformDragContext<E, H, V, I>,
    event_type: NSEventType,
    has_delegate: bool,
    res: OrderingQuery,
)
    requires
        call_ensures(
            PlatformDragContext::<E, H, V, I>::should_delay_window_ordering,
            (source, event_type, has_delegate),
            res,
        ),
    ensures
        event_type == 1 && has_delegate ==> res == OrderingQuery::AskDelegate(source@.id),
        event_type != 1 || !has_delegate ==> res == OrderingQuery::Answer(false),
{
}

/// The order of the windows is waited for until the delegate answers, and kept if it says so. A
/// delegate that will not answer does not say so.
pub proof fn law_answer_of_delegate_counts(result: Option<PromiseResult>, res: Option<bool>)
    requires
        call_ensures(poll_ordering_answer, (result,), res),
    ensures
        res is None <==> result is None,
        forall|value: bool|
            result == Some(PromiseResult::Answered { value }) ==> res == Some(value),
        result == Some(PromiseResult::Cancelled) ==> res == Some(false),
{
}

/// Whatever set of operations is asked for, a drag offers one of them exactly if the drag is under
/// way and one of the masks that it allows has one of them.
pub proof fn law_drag_offers_what_it_allows<E, H, V, I>(
    source: &PlatformDragContext<E, H, V, I>,
    n: NSInteger,
    some: NSDragOperation,
    res: NSDragOperation,
)
    requires
        call_ensures(
            PlatformDragContext::<E, H, V, I>::source_operation_mask_for_dragging_context,
            (source, n),
            res,
        ),
    ensures
        !source@.sessions.contains_key(n) ==> res == 0,
        source@.sessions.contains_key(n) ==> (some & res == 0 <==> forall|k: int|
            0 <= k < source@.sessions[n].configuration.allowed_operations@.len() ==> some
                & #[trigger] source@.sessions[n].configuration.allowed_operations@[k] == 0),
{
    if source@.sessions.contains_key(n) {
        let masks = source@.sessions[n].configuration.allowed_operations@;
        lemma_union_meets_what_a_part_meets(masks, some);
    }
}

/// The local data of a drag is there exactly while the drag is under way: one clone for each item,
/// in the order of the items.
pub proof fn law_local_data_of_a_drag<E, H, V: Clone, I>(
    source: &PlatformDragContext<E, H, V, I>,
    n: NSInteger,
    res: Option<Vec<V>>,
)
    requires
        call_ensures(PlatformDragContext::<E, H, V, I>::get_local_data, (source, n), res),
    ensures
        res is Some <==> source@.sessions.contains_key(n),
        res matches Some(data) ==> {
            let items = source@.sessions[n].configuration.items@;
            &&& data@.len() == items.len()
            &&& forall|k: int|
                0 <= k < items.len() ==> cloned(items[k].local_data, #[trigger] data@[k])
        },
{
}

/// Local data is found by name exactly if a drag of that name is under way, and is then that of
/// such a drag: one clone for each item, in the order of the items.
pub proof fn law_local_data_by_name<E, H, V: Clone, I>(
    source: &PlatformDragContext<E, H, V, I>,
    session_id: DragSessionId,
    res: NativeExtensionsResult<Vec<V>>,
)
    requires
        call_ensures(
            PlatformDragContext::<E, H, V, I>::get_local_data_for_session_id,
            (source, session_id),
            res,
        ),
    ensures
        (forall|n: NSInteger| #[trigger]
            source@.sessions.contains_key(n) ==> source@.sessions[n].session_id != session_id)
            ==> res == Err::<Vec<V>, NativeExtensionsError>(
            NativeExtensionsError::DragSessionNotFound,
        ),
        (exists|n: NSInteger| #[trigger]
            source@.sessions.contains_key(n) && source@.sessions[n].session_id == session_id)
            ==> res is Ok,
        res matches Ok(data) ==> exists|n: NSInteger|
            {
                &&& #[trigger] source@.sessions.contains_key(n)
                &&& source@.sessions[n].session_id == session_id
                &&& data@.len() == source@.sessions[n].configuration.items@.len()
                &&& forall|k: int|
                    0 <= k < data@.len() ==> cloned(
                        source@.sessions[n].configuration.items@[k].local_data,
                        #[trigger] data@[k],
                    )
            },
{
    assert forall|n: NSInteger| #[trigger]
        source@.sessions.contains_key(n) && source@.sessions[n].session_id
            == session_id implies res is Ok by {
        assert(source@.has_name(n, session_id));
    }
    if res is Ok {
        let n = choose|n: NSInteger| #[trigger]
            source@.has_name(n, session_id) && is_local_data(
                source@.sessions[n].configuration.items@,
                res->Ok_0@,
            );
        assert(source@.sessions.contains_key(n));
    }
}

} // verus!
