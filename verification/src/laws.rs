//! What holds of drag sources whatever happens to them.
use crate::callback::{Callback, EventStep};
use crate::context::{
    ordering_answer, ContextView, EndAction, MouseUpStep, NSInteger, OrderingQuery, PromiseResult,
    SynthesizedEvent, ViewId, RELEASE_DELAY_SECONDS,
};
use crate::contexts::{ContextKey, ContextsView};
use crate::error::NativeExtensionsError;
use crate::event::{
    CurrentEvent, MomentumEvent, MouseEvent, MouseUpType, NSEventPhase, NSEventType,
    NS_EVENT_PHASE_ENDED, NS_EVENT_TYPE_LEFT_MOUSE_DOWN, NS_EVENT_TYPE_RIGHT_MOUSE_DOWN,
};
use crate::operation::{union_of, DropOperation, NS_DRAG_OPERATION_NONE};
use crate::session::{handles_of, is_local_data, DragSession, DragSessionId};
use crate::start::{
    are_item_requests, is_session_of, is_step, StartRequest, StartStage, StartStep,
};
use vstd::prelude::*;

pub mod source;
pub mod sources;
pub mod start;

verus! {

/// Something that happens to a drag source.
pub enum ContextEvent<E, H, V, I> {
    /// A mouse button went down.
    MouseDown(MouseEvent<E>),
    /// A mouse button went up.
    MouseUp(MouseEvent<E>),
    /// A scroll, magnify or rotate event came.
    Momentum(MomentumEvent<E>),
    /// The platform opened a session for a drag, and gave it a number.
    SessionOpened(DragSession<H, V, I>, NSInteger),
    /// The drag of that number ended.
    DragEnded(NSInteger),
}

/// The event begins or ends the drag of number `n`.
pub open spec fn is_about<E, H, V, I>(event: ContextEvent<E, H, V, I>, n: NSInteger) -> bool {
    match event {
        ContextEvent::SessionOpened(_, m) => m == n,
        ContextEvent::DragEnded(m) => m == n,
        _ => false,
    }
}

/// A drag source once something has happened to it.
pub open spec fn after<E, H, V, I>(
    context: ContextView<E, H, V, I>,
    event: ContextEvent<E, H, V, I>,
) -> ContextView<E, H, V, I> {
    match event {
        ContextEvent::MouseDown(event) => context.after_mouse_down(event),
        ContextEvent::MouseUp(event) => context.after_mouse_up(event),
        ContextEvent::Momentum(event) => context.after_momentum_event(event),
        ContextEvent::SessionOpened(session, n) => context.after_session_opened(session, n),
        ContextEvent::DragEnded(n) => context.after_drag_ended(n),
    }
}

/// A drag source once a number of things have happened to it, one after the other.
pub open spec fn after_all<E, H, V, I>(
    context: ContextView<E, H, V, I>,
    events: Seq<ContextEvent<E, H, V, I>>,
) -> ContextView<E, H, V, I>
    decreases events.len(),
{
    if events.len() == 0 {
        context
    } else {
        after(after_all(context, events.drop_last()), events.last())
    }
}

/// A drag source keeps its name and its view.
pub proof fn law_identity_is_kept<E, H, V, I>(
    context: ContextView<E, H, V, I>,
    events: Seq<ContextEvent<E, H, V, I>>,
)
    ensures
        after_all(context, events).id == context.id,
        after_all(context, events).view == context.view,
    decreases events.len(),
{
    if events.len() > 0 {
        law_identity_is_kept(context, events.drop_last());
    }
}

/// The event of a mouse button going down is kept until another one comes.
pub proof fn law_mouse_down_is_remembered<E, H, V, I>(
    context: ContextView<E, H, V, I>,
    event: MouseEvent<E>,
    events: Seq<ContextEvent<E, H, V, I>>,
)
    requires
        forall|i: int| 0 <= i < events.len() ==> !(#[trigger] events[i] is MouseDown),
    ensures
        after_all(context.after_mouse_down(event), events).last_mouse_down == Some(event),
    decreases events.len(),
{
    if events.len() > 0 {
        let earlier = events.drop_last();
        assert forall|i: int| 0 <= i < earlier.len() implies !(
        #[trigger] earlier[i] is MouseDown) by {
            assert(earlier[i] == events[i]);
        }
        assert(!(events[events.len() - 1] is MouseDown));
        law_mouse_down_is_remembered(context, event, earlier);
    }
}

/// Once a mouse button has gone down in a view, drags from it can always begin: the event is never
/// forgotten, only replaced by a later one.
pub proof fn law_drags_can_begin_after_mouse_down<E, P, H: Clone, V, I: Clone>(
    context: ContextView<E, H, V, I>,
    events: Seq<ContextEvent<E, H, V, I>>,
    session: DragSession<H, V, I>,
    has_window: bool,
    step: StartStep<'static, E, P, H, V, I>,
)
    requires
        context.last_mouse_down is Some || exists|i: int|
            0 <= i < events.len() && #[trigger] events[i] is MouseDown,
        is_step(after_all(context, events), StartStage::OpenSession(session), has_window, step),
    ensures
        step is OpenSession,
{
    lemma_mouse_down_is_never_forgotten(context, events);
}

/// Once a mouse button has gone down, some event of that kind is always there.
proof fn lemma_mouse_down_is_never_forgotten<E, H, V, I>(
    context: ContextView<E, H, V, I>,
    events: Seq<ContextEvent<E, H, V, I>>,
)
    requires
        context.last_mouse_down is Some || exists|i: int|
            0 <= i < events.len() && #[trigger] events[i] is MouseDown,
    ensures
        after_all(context, events).last_mouse_down is Some,
    decreases events.len(),
{
    if events.len() > 0 && !(events.last() is MouseDown) {
        let earlier = events.drop_last();
        if context.last_mouse_down is None {
            let i = choose|i: int| 0 <= i < events.len() && #[trigger] events[i] is MouseDown;
            assert(earlier[i] is MouseDown);
        }
        lemma_mouse_down_is_never_forgotten(context, earlier);
    }
}

/// Until a mouse button goes down, no drag can begin.
pub proof fn law_no_drag_before_mouse_down<E, P, H: Clone, V, I: Clone>(
    context: ContextView<E, H, V, I>,
    events: Seq<ContextEvent<E, H, V, I>>,
    session: DragSession<H, V, I>,
    has_window: bool,
    step: StartStep<'static, E, P, H, V, I>,
)
    requires
        context.last_mouse_down is None,
        forall|i: int| 0 <= i < events.len() ==> !(#[trigger] events[i] is MouseDown),
        is_step(after_all(context, events), StartStage::OpenSession(session), has_window, step),
    ensures
        step matches StartStep::Failed { error, .. } && error
            == NativeExtensionsError::MouseEventNotFound,
{
    lemma_no_mouse_down_out_of_nothing(context, events);
}

/// Until a mouse button goes down, there is no event of that kind.
proof fn lemma_no_mouse_down_out_of_nothing<E, H, V, I>(
    context: ContextView<E, H, V, I>,
    events: Seq<ContextEvent<E, H, V, I>>,
)
    requires
        context.last_mouse_down is None,
        forall|i: int| 0 <= i < events.len() ==> !(#[trigger] events[i] is MouseDown),
    ensures
        after_all(context, events).last_mouse_down is None,
    decreases events.len(),
{
    if events.len() > 0 {
        let earlier = events.drop_last();
        assert forall|i: int| 0 <= i < earlier.len() implies !(
        #[trigger] earlier[i] is MouseDown) by {
            assert(earlier[i] == events[i]);
        }
        assert(!(events[events.len() - 1] is MouseDown));
        lemma_no_mouse_down_out_of_nothing(context, earlier);
    }
}

/// What a start comes to after `step`, unless it is over.
pub open spec fn stage_after<'a, E, P, H, V, I>(
    step: StartStep<'a, E, P, H, V, I>,
) -> Option<StartStage<P, H, V, I>> {
    match step {
        StartStep::SendEvent { next, .. } => Some(next.stage()),
        StartStep::MakeItems { next, .. } => Some(next.stage()),
        StartStep::OpenSession { .. } => None,
        StartStep::Failed { .. } => None,
    }
}

/// `steps` are the first steps of the start of a drag. The source was `contexts[k]` at step `k`,
/// and `has_window[k]` says whether its view had a window then.
pub open spec fn is_start<'a, E, P, H: Clone, V, I: Clone>(
    request: StartRequest<P, H, V, I>,
    contexts: Seq<ContextView<E, H, V, I>>,
    has_window: Seq<bool>,
    steps: Seq<StartStep<'a, E, P, H, V, I>>,
) -> bool {
    &&& steps.len() > 0 ==> is_step(
        contexts[0],
        StartStage::ReleaseMouse(MouseUpStep::FinishMomentum, request),
        has_window[0],
        steps[0],
    )
    &&& forall|k: int|
        1 <= k < steps.len() ==> {
            &&& stage_after(steps[k - 1]) matches Some(stage)
            &&& is_step(contexts[k], stage, has_window[k], #[trigger] steps[k])
        }
}

/// Every start of a drag first finishes the gesture and then lets go of the mouse button, once each
/// and before anything else. Only then are the items made, and only after that is a session of the
/// platform opened, or the start given up. Nothing comes after that.
///
/// Whatever happens to the source between the steps does not change the order.
pub proof fn law_mouse_is_released_first<E, P, H: Clone, V, I: Clone>(
    request: StartRequest<P, H, V, I>,
    contexts: Seq<ContextView<E, H, V, I>>,
    has_window: Seq<bool>,
    steps: Seq<StartStep<'static, E, P, H, V, I>>,
)
    requires
        is_start(request, contexts, has_window, steps),
    ensures
        steps.len() > 0 ==> (steps[0] matches StartStep::SendEvent { event, .. } && event
            == contexts[0].momentum_end(has_window[0])),
        steps.len() > 1 ==> (steps[1] matches StartStep::SendEvent { event, .. } && event
            == contexts[1].button_release(has_window[1])),
        steps.len() > 2 ==> steps[2] is MakeItems,
        steps.len() > 3 ==> steps[3] is OpenSession || steps[3] is Failed,
        steps.len() <= 4,
        forall|k: int| 0 <= k < steps.len() && steps[k] is SendEvent ==> k < 2,
        forall|k: int| 0 <= k < steps.len() && #[trigger] steps[k] is MakeItems ==> k == 2,
        forall|k: int| 0 <= k < steps.len() && #[trigger] steps[k] is OpenSession ==> k == 3,
        forall|k: int| 0 <= k < steps.len() && #[trigger] steps[k] is Failed ==> k == 3,
{
    if steps.len() > 1 {
        assert(is_step(
            contexts[1],
            StartStage::ReleaseMouse(MouseUpStep::ReleaseButton, request),
            has_window[1],
            steps[1],
        ));
    }
    if steps.len() > 2 {
        assert(is_step(contexts[2], StartStage::MakeItems(request), has_window[2], steps[2]));
    }
    if steps.len() > 3 {
        assert(stage_after(steps[2]) matches Some(StartStage::OpenSession(_)));
        assert(is_step(contexts[3], stage_after(steps[2])->0, has_window[3], steps[3]));
    }
    if steps.len() > 4 {
        assert(stage_after(steps[3]) is None);
        assert(is_step(contexts[4], stage_after(steps[3])->0, has_window[4], steps[4]));
    }
}

/// A start that succeeds opens one session: with a dragging item for each item that was asked for,
/// which has that item's writer and image, with the mouse event that the source knows, and with the
/// view as the source of the session. The drag that is then under way is the one that was asked
/// for.
pub proof fn law_session_is_opened_for_all_items<E, P, H: Clone, V, I: Clone>(
    request: StartRequest<P, H, V, I>,
    contexts: Seq<ContextView<E, H, V, I>>,
    has_window: Seq<bool>,
    steps: Seq<StartStep<'static, E, P, H, V, I>>,
)
    requires
        is_start(request, contexts, has_window, steps),
        steps.len() > 0,
        steps.last() is OpenSession,
    ensures
        steps.len() == 4,
        steps[2] matches StartStep::MakeItems { items, .. } && are_item_requests(
            request.configuration.items@,
            request.providers@,
            items@,
        ),
        contexts[3].last_mouse_down is Some,
        steps[3] matches StartStep::OpenSession { actions, session } && actions@
            == contexts[3].open_actions(session) && is_session_of(request, session),
{
    law_mouse_is_released_first(request, contexts, has_window, steps);
    assert(steps[steps.len() - 1] is OpenSession);
    assert(stage_after(steps[0]) == Some(
        StartStage::ReleaseMouse(MouseUpStep::ReleaseButton, request),
    ));
    assert(is_step(
        contexts[1],
        StartStage::ReleaseMouse(MouseUpStep::ReleaseButton, request),
        has_window[1],
        steps[1],
    ));
    assert(is_step(contexts[2], StartStage::MakeItems(request), has_window[2], steps[2]));
    assert(is_step(contexts[3], stage_after(steps[2])->0, has_window[3], steps[3]));
}

/// Whatever happens touches no drag but the one that it is about.
pub proof fn law_other_drags_untouched<E, H, V, I>(
    context: ContextView<E, H, V, I>,
    event: ContextEvent<E, H, V, I>,
    n: NSInteger,
)
    requires
        !is_about(event, n),
    ensures
        after(context, event).sessions.contains_key(n) <==> context.sessions.contains_key(n),
        context.sessions.contains_key(n) ==> after(context, event).sessions[n]
            == context.sessions[n],
        after(context, event).offered_operations(n) == context.offered_operations(n),
{
}

/// A drag stays under way, unchanged, from the opening of its session until its end or until its
/// number is given to another drag.
pub proof fn law_drag_lasts_until_it_ends<E, H, V, I>(
    context: ContextView<E, H, V, I>,
    session: DragSession<H, V, I>,
    n: NSInteger,
    events: Seq<ContextEvent<E, H, V, I>>,
)
    requires
        forall|i: int| 0 <= i < events.len() ==> !is_about(#[trigger] events[i], n),
    ensures
        after_all(context.after_session_opened(session, n), events).sessions.contains_key(n),
        after_all(context.after_session_opened(session, n), events).sessions[n] == session,
        after_all(context.after_session_opened(session, n), events).has_name(
            n,
            session.session_id,
        ),
        after_all(context.after_session_opened(session, n), events).offered_operations(n)
            == union_of(session.configuration.allowed_operations@),
    decreases events.len(),
{
    if events.len() > 0 {
        let earlier = events.drop_last();
        assert forall|i: int| 0 <= i < earlier.len() implies !is_about(
            #[trigger] earlier[i],
            n,
        ) by {
            assert(earlier[i] == events[i]);
        }
        law_drag_lasts_until_it_ends(context, session, n, earlier);
        let opened = context.after_session_opened(session, n);
        let last = events[events.len() - 1];
        assert(!is_about(last, n));
        law_other_drags_untouched(after_all(opened, earlier), last, n);
    }
}

/// The event at `i` opens a session with the number `n` for `session`, and no later event begins or
/// ends the drag of that number.
pub open spec fn is_last_opening<E, H, V, I>(
    events: Seq<ContextEvent<E, H, V, I>>,
    n: NSInteger,
    i: int,
    session: DragSession<H, V, I>,
) -> bool {
    &&& 0 <= i < events.len()
    &&& events[i] == ContextEvent::<E, H, V, I>::SessionOpened(session, n)
    &&& forall|j: int| i < j < events.len() ==> !is_about(#[trigger] events[j], n)
}

/// A drag is under way exactly if its session has been opened and it has not ended since. It is
/// then the one that its number was given to last.
pub proof fn law_under_way_exactly_from_opening_to_end<E, H, V, I>(
    context: ContextView<E, H, V, I>,
    n: NSInteger,
    events: Seq<ContextEvent<E, H, V, I>>,
)
    requires
        !context.sessions.contains_key(n),
    ensures
        after_all(context, events).sessions.contains_key(n) <==> exists|
            i: int,
            session: DragSession<H, V, I>,
        | #[trigger]
            is_last_opening(events, n, i, session),
        forall|i: int, session: DragSession<H, V, I>| #[trigger]
            is_last_opening(events, n, i, session) ==> after_all(context, events).sessions[n]
                == session,
    decreases events.len(),
{
    if events.len() > 0 {
        let earlier = events.drop_last();
        let last = events[events.len() - 1];
        law_under_way_exactly_from_opening_to_end(context, n, earlier);
        if is_about(last, n) {
            assert forall|i: int, session: DragSession<H, V, I>| #[trigger]
                is_last_opening(events, n, i, session) implies i == events.len() - 1 by {
                if i < events.len() - 1 {
                    assert(!is_about(events[events.len() - 1], n));
                }
            }
            if let ContextEvent::SessionOpened(session, _) = last {
                assert(is_last_opening(events, n, events.len() - 1, session));
            }
        } else {
            law_other_drags_untouched(after_all(context, earlier), last, n);
            assert forall|i: int, session: DragSession<H, V, I>| #[trigger]
                is_last_opening(events, n, i, session) implies is_last_opening(
                earlier,
                n,
                i,
                session,
            ) by {
                assert(i < events.len() - 1);
                assert forall|j: int| i < j < earlier.len() implies !is_about(
                    #[trigger] earlier[j],
                    n,
                ) by {
                    assert(earlier[j] == events[j]);
                }
            }
            assert forall|i: int, session: DragSession<H, V, I>| #[trigger]
                is_last_opening(earlier, n, i, session) implies is_last_opening(
                events,
                n,
                i,
                session,
            ) by {
                assert forall|j: int| i < j < events.len() implies !is_about(
                    #[trigger] events[j],
                    n,
                ) by {
                    if j < earlier.len() {
                        assert(earlier[j] == events[j]);
                    }
                }
            }
        }
    }
}

/// A drag that was started is the one that was asked for: as long as it is under way, it is found
/// by its name, has the local data of its items, and offers the operations that were allowed. At
/// its end, the handles of its items are held on to.
pub proof fn law_drag_is_what_was_asked_for<E, P, H, V: Clone, I>(
    context: ContextView<E, H, V, I>,
    request: StartRequest<P, H, V, I>,
    session: DragSession<H, V, I>,
    n: NSInteger,
    events: Seq<ContextEvent<E, H, V, I>>,
    data: Seq<V>,
    operations: Seq<DropOperation>,
    current_event: Option<CurrentEvent>,
    has_delegate: bool,
)
    requires
        is_session_of(request, session),
        forall|i: int| 0 <= i < events.len() ==> !is_about(#[trigger] events[i], n),
    ensures
        ({
            let configuration = request.configuration;
            let later = after_all(context.after_session_opened(session, n), events);
            let actions = later.end_actions(n, operations, current_event, has_delegate);
            &&& later.has_name(n, request.session_id)
            &&& is_local_data(later.sessions[n].configuration.items@, data) <==> is_local_data(
                configuration.items@,
                data,
            )
            &&& later.offered_operations(n) == union_of(configuration.allowed_operations@)
            &&& actions.last() matches EndAction::ReleaseLater { seconds, data_provider_handles }
                && seconds == RELEASE_DELAY_SECONDS && data_provider_handles@ == handles_of(
                configuration.items@,
                request.providers@,
            )
        }),
{
    law_drag_lasts_until_it_ends(context, session, n, events);
}

/// The end of a drag undoes its beginning.
pub proof fn law_end_undoes_beginning<E, H, V, I>(
    context: ContextView<E, H, V, I>,
    session: DragSession<H, V, I>,
    n: NSInteger,
)
    requires
        !context.sessions.contains_key(n),
    ensures
        context.after_session_opened(session, n).after_drag_ended(n) == context,
{
    assert(context.after_session_opened(session, n).after_drag_ended(n) =~= context);
}

/// A drag that has ended offers nothing, and its name finds only other drags that go by it.
pub proof fn law_ended_drag_is_gone<E, H, V, I>(
    context: ContextView<E, H, V, I>,
    n: NSInteger,
    m: NSInteger,
    session_id: DragSessionId,
)
    ensures
        !context.after_drag_ended(n).sessions.contains_key(n),
        context.after_drag_ended(n).offered_operations(n) == NS_DRAG_OPERATION_NONE,
        context.after_drag_ended(n).has_name(m, session_id) <==> m != n && context.has_name(
            m,
            session_id,
        ),
{
}

/// Where a name belongs to one drag only, asking for local data by name and by number comes to the
/// same.
pub proof fn law_name_and_number_agree<E, H, V: Clone, I>(
    context: ContextView<E, H, V, I>,
    n: NSInteger,
    session_id: DragSessionId,
    data: Seq<V>,
)
    requires
        context.has_name(n, session_id),
        forall|m: NSInteger| #[trigger] context.has_name(m, session_id) ==> m == n,
    ensures
        (exists|m: NSInteger| #[trigger]
            context.has_name(m, session_id) && is_local_data(
                context.sessions[m].configuration.items@,
                data,
            )) <==> is_local_data(context.sessions[n].configuration.items@, data),
{
}

/// The handles that a drag was given are held until its end and for a while after it: they are the
/// last thing that its end deals with, and all of them are there.
pub proof fn law_handles_outlive_drag<E, H, V, I>(
    context: ContextView<E, H, V, I>,
    session: DragSession<H, V, I>,
    n: NSInteger,
    operations: Seq<DropOperation>,
    current_event: Option<CurrentEvent>,
    has_delegate: bool,
)
    ensures
        context.after_session_opened(session, n).end_actions(
            n,
            operations,
            current_event,
            has_delegate,
        ).last() == (EndAction::ReleaseLater {
            seconds: RELEASE_DELAY_SECONDS,
            data_provider_handles: session.data_provider_handles,
        }),
{
}

/// A delegate hears of the end of a drag before anything else is done about it, and under the name
/// that the drag was started with.
pub proof fn law_delegate_hears_first<E, H, V, I>(
    context: ContextView<E, H, V, I>,
    session: DragSession<H, V, I>,
    n: NSInteger,
    operations: Seq<DropOperation>,
    current_event: Option<CurrentEvent>,
)
    ensures
        context.after_session_opened(session, n).end_actions(
            n,
            operations,
            current_event,
            true,
        ).first() matches EndAction::NotifyDelegate { id, session_id, .. } && id == context.id
            && session_id == session.session_id,
{
}

/// A gesture is finished once: when the event that finishes it has come back to the view, there is
/// nothing left to finish.
pub proof fn law_gesture_is_finished_once<E, H, V, I>(
    context: ContextView<E, H, V, I>,
    event: E,
    has_window: bool,
)
    ensures
        context.after_momentum_event(
            MomentumEvent { phase: NS_EVENT_PHASE_ENDED, event },
        ).momentum_end(has_window) is None,
        context.momentum_end(has_window) matches Some(made) ==> (made matches
            SynthesizedEvent::MomentumEnd { value, .. } && value == NS_EVENT_PHASE_ENDED),
{
}

/// The button that is let go is the one that went down last, and the event of its going down stays
/// there for the drag to begin with.
pub proof fn law_released_button_went_down<E, H, V, I>(
    context: ContextView<E, H, V, I>,
    event: MouseEvent<E>,
    up: MouseEvent<E>,
)
    ensures
        event.event_type == NS_EVENT_TYPE_LEFT_MOUSE_DOWN ==> context.after_mouse_down(
            event,
        ).button_release(true) == Some(
            SynthesizedEvent::MouseUp { event: &event.event, event_type: MouseUpType::LeftMouseUp },
        ),
        event.event_type == NS_EVENT_TYPE_RIGHT_MOUSE_DOWN ==> context.after_mouse_down(
            event,
        ).button_release(true) == Some(
            SynthesizedEvent::MouseUp {
                event: &event.event,
                event_type: MouseUpType::RightMouseUp,
            },
        ),
        context.after_mouse_down(event).after_mouse_up(up).last_mouse_down == Some(event),
{
}

/// The order of the windows stays as it is exactly if the left mouse button goes down, there is a
/// delegate, and the delegate answers that the place can be dragged.
pub proof fn law_ordering_delayed_only_for_draggable_place<E, H, V, I>(
    context: ContextView<E, H, V, I>,
    event_type: NSEventType,
    has_delegate: bool,
    result: PromiseResult,
)
    ensures
        (match context.ordering_query(event_type, has_delegate) {
            OrderingQuery::Answer(answer) => answer,
            OrderingQuery::AskDelegate(_) => ordering_answer(result),
        }) == (event_type == NS_EVENT_TYPE_LEFT_MOUSE_DOWN && has_delegate && result
            == (PromiseResult::Answered { value: true })),
{
}

/// The messages of a view go to the source that was assigned to it.
pub proof fn law_assigned_view_leads_to_source<E, H, V, I>(
    all: ContextsView<E, H, V, I>,
    key: ContextKey,
)
    requires
        all.valid(),
        all.contexts.contains_key(key),
    ensures
        all.after_assign(key, key).state_of(all.contexts[key].view) == Some(key),
        forall|view: ViewId|
            view != all.contexts[key].view ==> #[trigger] all.after_assign(key, key).state_of(view)
                == all.state_of(view),
{
}

/// No view leads to a new source before it is assigned.
pub proof fn law_new_source_is_not_reached<E, H, V, I>(
    all: ContextsView<E, H, V, I>,
    context: ContextView<E, H, V, I>,
    view: ViewId,
)
    requires
        all.valid(),
        all.next_key < ContextKey::MAX,
    ensures
        all.after_add(context).state_of(view) == all.state_of(view),
        all.after_add(context).state_of(view) != Some(all.next_key),
        !all.contexts.contains_key(all.next_key),
{
}

/// No view leads to a source that is gone, and the view of that source leads nowhere, even if
/// another source had taken it over.
pub proof fn law_gone_source_is_not_reached<E, H, V, I>(
    all: ContextsView<E, H, V, I>,
    key: ContextKey,
    view: ViewId,
)
    requires
        all.valid(),
        all.contexts.contains_key(key),
    ensures
        all.after_drop(key).state_of(view) != Some(key),
        all.after_drop(key).state_of(all.contexts[key].view) is None,
        view != all.contexts[key].view && all.state_of(view) != Some(key) ==> all.after_drop(
            key,
        ).state_of(view) == all.state_of(view),
{
}

/// An event of a view changes no source but the one that the view leads to, and changes where no
/// view leads.
pub proof fn law_events_reach_one_source<E, H, V, I>(
    all: ContextsView<E, H, V, I>,
    view: ViewId,
    mouse: MouseEvent<E>,
    momentum: MomentumEvent<E>,
    n: NSInteger,
    key: ContextKey,
    other: ViewId,
)
    requires
        all.valid(),
        all.contexts.contains_key(key),
        all.state_of(view) != Some(key),
    ensures
        all.after_mouse_down(view, mouse).contexts[key] == all.contexts[key],
        all.after_mouse_up(view, mouse).contexts[key] == all.contexts[key],
        all.after_momentum_event(view, momentum).contexts[key] == all.contexts[key],
        all.after_drag_ended(view, n).contexts[key] == all.contexts[key],
        all.after_mouse_down(view, mouse).state_of(other) == all.state_of(other),
        all.after_mouse_up(view, mouse).state_of(other) == all.state_of(other),
        all.after_momentum_event(view, momentum).state_of(other) == all.state_of(other),
        all.after_drag_ended(view, n).state_of(other) == all.state_of(other),
{
}

/// An event that comes to a view, as the message `callback`.
pub struct ViewEvent<E> {
    /// The message.
    pub callback: Callback,
    /// The view.
    pub view: ViewId,
    /// The type of the event.
    pub event_type: NSEventType,
    /// The phase of the event.
    pub phase: NSEventPhase,
    /// The event.
    pub event: E,
}

/// All drag sources once the source of the view, if there is one, has stored the event.
pub open spec fn remembered<E, H, V, I>(
    all: ContextsView<E, H, V, I>,
    event: ViewEvent<E>,
) -> ContextsView<E, H, V, I> {
    let mouse = MouseEvent { event_type: event.event_type, event: event.event };
    let momentum = MomentumEvent { phase: event.phase, event: event.event };
    match event.callback {
        Callback::MouseDown => all.after_mouse_down(event.view, mouse),
        Callback::MouseUp => all.after_mouse_up(event.view, mouse),
        Callback::RightMouseDown => all.after_mouse_down(event.view, mouse),
        Callback::RightMouseUp => all.after_mouse_up(event.view, mouse),
        Callback::ScrollWheel => all.after_momentum_event(event.view, momentum),
        Callback::MagnifyWithEvent => all.after_momentum_event(event.view, momentum),
        Callback::RotateWithEvent => all.after_momentum_event(event.view, momentum),
        _ => all,
    }
}

/// How far an event has come.
pub struct Delivery<E, H, V, I> {
    /// All drag sources.
    pub all: ContextsView<E, H, V, I>,
    /// What they were each time that the event went on to the view.
    pub passed_on: Seq<ContextsView<E, H, V, I>>,
}

/// How far an event has come once `steps` have been done about it, one after the other.
pub open spec fn after_event_steps<E, H, V, I>(
    all: ContextsView<E, H, V, I>,
    event: ViewEvent<E>,
    steps: Seq<EventStep>,
) -> Delivery<E, H, V, I>
    decreases steps.len(),
{
    if steps.len() == 0 {
        Delivery { all, passed_on: Seq::empty() }
    } else {
        let before = after_event_steps(all, event, steps.drop_last());
        match steps.last() {
            EventStep::Remember => Delivery { all: remembered(before.all, event), ..before },
            EventStep::PassOn => Delivery {
                passed_on: before.passed_on.push(before.all),
                ..before
            },
        }
    }
}

/// An event goes on to its view exactly once, whether or not there is a drag source. Where there is
/// one, it has stored the event by then, and stores it once. A message that is no event does not go
/// on to the view.
pub proof fn law_event_goes_on_once_after_it_is_remembered<E, H, V, I>(
    all: ContextsView<E, H, V, I>,
    event: ViewEvent<E>,
)
    ensures
        ({
            let steps = event.callback.spec_event_steps();
            let delivery = after_event_steps(all, event, steps);
            &&& event.callback.is_event() ==> {
                &&& delivery.passed_on == seq![remembered(all, event)]
                &&& delivery.all == remembered(all, event)
                &&& steps.filter(|step: EventStep| step == EventStep::Remember).len() == 1
            }
            &&& !event.callback.is_event() ==> {
                &&& delivery.passed_on == Seq::<ContextsView<E, H, V, I>>::empty()
                &&& delivery.all == all
            }
            &&& all.state_of(event.view) is None ==> delivery.all == all
        }),
{
    let steps = event.callback.spec_event_steps();
    if event.callback.is_event() {
        let first = seq![EventStep::Remember];
        assert(steps.drop_last() =~= first);
        assert(first.drop_last() =~= Seq::<EventStep>::empty());
        assert(after_event_steps(all, event, Seq::<EventStep>::empty()).all == all);
        assert(after_event_steps(all, event, first).all == remembered(all, event));
        assert(after_event_steps(all, event, first).passed_on =~= Seq::empty());
        assert(after_event_steps(all, event, steps).passed_on =~= seq![remembered(all, event)]);
        let stores = |step: EventStep| step == EventStep::Remember;
        reveal(Seq::filter);
        assert(Seq::<EventStep>::empty().filter(stores) =~= Seq::empty());
        assert(first.filter(stores) =~= first);
        assert(steps.filter(stores) =~= first);
    }
}

} // verus!
