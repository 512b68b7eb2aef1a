//! What the calls that start a drag do, in terms of what goes in and what comes out.
use crate::context::{OpenAction, PlatformDragContext, SynthesizedEvent};
use crate::error::NativeExtensionsError;
use crate::event::MouseUpType;
use crate::session::{
    DataProviderEntry, DataProviderId, DragItem, DragRequest, DragSession, DragSessionId,
};
use crate::start::{taken_by, DragStart, ItemRequest, StartStage, StartStep};
use std::collections::HashMap;
use vstd::prelude::*;

verus! {

/// `start` has come to the step after `step`.
pub open spec fn goes_on_with<'a, E, P, H, V, I>(
    step: StartStep<'a, E, P, H, V, I>,
    start: DragStart<P, H, V, I>,
) -> bool {
    match step {
        StartStep::SendEvent { next, .. } => next == start,
        StartStep::MakeItems { next, .. } => next == start,
        _ => false,
    }
}

/// A provider is surplus exactly if no item takes it.
proof fn lemma_taken_by_some_item<V, I>(items: Seq<DragItem<V, I>>, id: DataProviderId)
    ensures
        taken_by(items).contains(id) <==> exists|k: int|
            0 <= k < items.len() && #[trigger] items[k].data_provider_id == id,
{
    let ids = items.map_values(|item: DragItem<V, I>| item.data_provider_id);
    if ids.contains(id) {
        let k = choose|k: int| 0 <= k < ids.len() && ids[k] == id;
        assert(items[k].data_provider_id == id);
    }
    assert forall|k: int| 0 <= k < items.len() && #[trigger] items[k].data_provider_id
        == id implies ids.contains(id) by {
        assert(ids[k] == id);
    }
}

/// The first step of the start of a drag sends the event that finishes the gesture under way, if
/// there is one and a window to send it to. Nothing else has been done by then.
pub proof fn law_start_first_finishes_the_gesture<'a, E, P, H: Clone, V, I: Clone>(
    source: &PlatformDragContext<E, H, V, I>,
    request: DragRequest<V, I>,
    providers: HashMap<DataProviderId, DataProviderEntry<P, H>>,
    session_id: DragSessionId,
    start: DragStart<P, H, V, I>,
    then: &'a PlatformDragContext<E, H, V, I>,
    has_window: bool,
    step: StartStep<'a, E, P, H, V, I>,
)
    requires
        call_ensures(
            PlatformDragContext::<E, H, V, I>::start_drag::<P>,
            (source, request, providers, session_id),
            start,
        ),
        call_ensures(
            PlatformDragContext::<E, H, V, I>::continue_start::<P>,
            (then, start, has_window),
            step,
        ),
    ensures
        step is SendEvent,
        then@.last_momentum matches Some(last) ==> {
            has_window && last.phase != 0 && last.phase != 8 && last.phase != 16 ==> step->event
                == Some(SynthesizedEvent::MomentumEnd { event: &last.event, field: 99, value: 8 })
        },
        then@.last_momentum matches Some(last) && (last.phase == 0 || last.phase == 8 || last.phase
            == 16) ==> step->event is None,
        then@.last_momentum is None || !has_window ==> step->event is None,
{
}

/// The second step of the start of a drag sends the event that lets go of the mouse button that
/// went down last, if one did and there is a window to send it to.
pub proof fn law_start_then_releases_the_button<'a, E, P, H: Clone, V, I: Clone>(
    source: &PlatformDragContext<E, H, V, I>,
    request: DragRequest<V, I>,
    providers: HashMap<DataProviderId, DataProviderEntry<P, H>>,
    session_id: DragSessionId,
    starts: (DragStart<P, H, V, I>, DragStart<P, H, V, I>),
    then: (&'a PlatformDragContext<E, H, V, I>, &'a PlatformDragContext<E, H, V, I>),
    has_window: (bool, bool),
    steps: (StartStep<'a, E, P, H, V, I>, StartStep<'a, E, P, H, V, I>),
)
    requires
        call_ensures(
            PlatformDragContext::<E, H, V, I>::start_drag::<P>,
            (source, request, providers, session_id),
            starts.0,
        ),
        call_ensures(
            PlatformDragContext::<E, H, V, I>::continue_start::<P>,
            (then.0, starts.0, has_window.0),
            steps.0,
        ),
        goes_on_with(steps.0, starts.1),
        call_ensures(
            PlatformDragContext::<E, H, V, I>::continue_start::<P>,
            (then.1, starts.1, has_window.1),
            steps.1,
        ),
    ensures
        steps.1 is SendEvent,
        then.1@.last_mouse_down matches Some(last) ==> {
            &&& has_window.1 && last.event_type == 1 ==> steps.1->event == Some(
                SynthesizedEvent::MouseUp {
                    event: &last.event,
                    event_type: MouseUpType::LeftMouseUp,
                },
            )
            &&& has_window.1 && last.event_type == 3 ==> steps.1->event == Some(
                SynthesizedEvent::MouseUp {
                    event: &last.event,
                    event_type: MouseUpType::RightMouseUp,
                },
            )
            &&& last.event_type != 1 && last.event_type != 3 ==> steps.1->event is None
        },
        then.1@.last_mouse_down is None || !has_window.1 ==> steps.1->event is None,
{
}

/// The start of a drag that has let go of the mouse makes the items: one for each item that was
/// asked for, with the provider, the handle and the image of that item. A provider is left over
/// exactly if no item takes it. What comes next is to open a session, for the drag that was asked
/// for.
pub proof fn law_start_makes_the_items<'a, E, P, H: Clone, V, I: Clone>(
    source: &PlatformDragContext<E, H, V, I>,
    request: DragRequest<V, I>,
    providers: HashMap<DataProviderId, DataProviderEntry<P, H>>,
    session_id: DragSessionId,
    starts: (DragStart<P, H, V, I>, DragStart<P, H, V, I>, DragStart<P, H, V, I>),
    then: (
        &'a PlatformDragContext<E, H, V, I>,
        &'a PlatformDragContext<E, H, V, I>,
        &'a PlatformDragContext<E, H, V, I>,
    ),
    has_window: (bool, bool, bool),
    steps: (
        StartStep<'a, E, P, H, V, I>,
        StartStep<'a, E, P, H, V, I>,
        StartStep<'a, E, P, H, V, I>,
    ),
    made: Seq<ItemRequest<P, H, I>>,
    surplus: Map<DataProviderId, DataProviderEntry<P, H>>,
)
    requires
        call_ensures(
            PlatformDragContext::<E, H, V, I>::start_drag::<P>,
            (source, request, providers, session_id),
            starts.0,
        ),
        call_ensures(
            PlatformDragContext::<E, H, V, I>::continue_start::<P>,
            (then.0, starts.0, has_window.0),
            steps.0,
        ),
        goes_on_with(steps.0, starts.1),
        call_ensures(
            PlatformDragContext::<E, H, V, I>::continue_start::<P>,
            (then.1, starts.1, has_window.1),
            steps.1,
        ),
        goes_on_with(steps.1, starts.2),
        forall|k: int|
            0 <= k < request.configuration.items@.len() ==> providers@.contains_key(
                #[trigger] request.configuration.items@[k].data_provider_id,
            ),
        forall|k: int, l: int|
            0 <= k < l < request.configuration.items@.len()
                ==> #[trigger] request.configuration.items@[k].data_provider_id
                != #[trigger] request.configuration.items@[l].data_provider_id,
        call_ensures(
            PlatformDragContext::<E, H, V, I>::continue_start::<P>,
            (then.2, starts.2, has_window.2),
            steps.2,
        ),
        steps.2 is MakeItems ==> made == steps.2->items@ && surplus == steps.2->surplus@,
    ensures
        steps.2 is MakeItems,
        made.len() == request.configuration.items@.len(),
        forall|k: int|
            0 <= k < made.len() ==> {
                let item = request.configuration.items@[k];
                let entry = providers@[item.data_provider_id];
                &&& (#[trigger] made[k]).provider == entry.provider
                &&& cloned(entry.handle, made[k].handle)
                &&& made[k].flags == (false, true)
                &&& cloned(item.image, made[k].image)
            },
        forall|id: DataProviderId| #[trigger]
            surplus.contains_key(id) <==> providers@.contains_key(id) && forall|k: int|
                0 <= k < request.configuration.items@.len()
                    ==> #[trigger] request.configuration.items@[k].data_provider_id != id,
        forall|id: DataProviderId| #[trigger]
            surplus.contains_key(id) ==> surplus[id] == providers@[id],
        steps.2->MakeItems_next.stage() matches StartStage::OpenSession(session) && {
            &&& session.session_id == session_id
            &&& session.configuration == request.configuration
            &&& session.data_provider_handles@.len() == request.configuration.items@.len()
            &&& forall|k: int|
                0 <= k < request.configuration.items@.len()
                    ==> #[trigger] session.data_provider_handles@[k]
                    == providers@[request.configuration.items@[k].data_provider_id].handle
        },
{
    let items = request.configuration.items@;
    assert forall|id: DataProviderId| #[trigger]
        surplus.contains_key(id) <==> providers@.contains_key(id) && forall|k: int|
            0 <= k < items.len() ==> #[trigger] items[k].data_provider_id != id by {
        lemma_taken_by_some_item(items, id);
    }
}

/// A start that has come to opening the session of a drag opens it if a mouse button has gone down
/// in the view, whatever the items of the drag are. There is exactly one session to begin, with the
/// event of that button and with the view as its source. Before it, the windows are kept from being
/// ordered anew, and after it, it is told whether to animate, as was asked for. Without a mouse
/// button having gone down, the start fails. The drag is handed back as it was either way.
pub proof fn law_start_opens_one_session<'a, E, P, H: Clone, V, I: Clone>(
    source: &'a PlatformDragContext<E, H, V, I>,
    start: DragStart<P, H, V, I>,
    session: DragSession<H, V, I>,
    has_window: bool,
    step: StartStep<'a, E, P, H, V, I>,
)
    requires
        start.stage() == StartStage::<P, H, V, I>::OpenSession(session),
        call_ensures(
            PlatformDragContext::<E, H, V, I>::continue_start::<P>,
            (source, start, has_window),
            step,
        ),
    ensures
        source@.last_mouse_down matches Some(down) ==> {
            &&& step matches StartStep::OpenSession { actions, session: opened }
            &&& opened == session
            &&& actions@.len() == 3
            &&& actions@[0] is PreventWindowOrdering
            &&& actions@[1] == (OpenAction::BeginDraggingSession {
                event: &down.event,
                source: source@.view,
            })
            &&& actions@[2] == OpenAction::<&E>::SetAnimatesToStartingPositionsOnCancelOrFail(
                session.configuration.animates_to_starting_position_on_cancel_or_fail,
            )
            &&& forall|k: int|
                0 <= k < actions@.len() && (
                #[trigger] actions@[k] is BeginDraggingSession) ==> k == 1
        },
        source@.last_mouse_down is None ==> {
            &&& step matches StartStep::Failed { error, session: given_up }
            &&& error == NativeExtensionsError::MouseEventNotFound
            &&& given_up == session
        },
{
}

/// The data providers are asked for when the items are made next, and not before or after that.
/// They suffice exactly if there is one for each item and no two items need the same one.
pub proof fn law_start_needs_providers_for_its_items<P, H, V, I>(
    start: &DragStart<P, H, V, I>,
    res: bool,
)
    requires
        call_ensures(DragStart::<P, H, V, I>::has_providers, (start,), res),
    ensures
        !(start.stage() is MakeItems) ==> res,
        start.stage() matches StartStage::MakeItems(request) ==> (res <==> {
            let items = request.configuration.items@;
            &&& forall|k: int|
                0 <= k < items.len() ==> request.providers@.contains_key(
                    #[trigger] items[k].data_provider_id,
                )
            &&& forall|k: int, l: int|
                0 <= k < l < items.len() ==> #[trigger] items[k].data_provider_id
                    != #[trigger] items[l].data_provider_id
        }),
{
}

} // verus!
