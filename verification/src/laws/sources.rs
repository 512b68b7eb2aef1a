//! What the calls to all drag sources do, in terms of what goes in and what comes out.
use crate::context::{
    ContextView, EndAction, MoveNotification, NSInteger, OrderingQuery, PlatformDragContext, ViewId,
};
use crate::contexts::{ContextKey, ContextsView, DragContexts};
use crate::event::{CurrentEvent, MomentumEvent, MouseEvent, NSEventType};
use crate::laws::source::ends_drag;
use crate::operation::{DropOperation, NSDragOperation};
use crate::session::DragSession;
use std::collections::HashMap;
use vstd::prelude::*;

verus! {

/// The messages of `view` go to the source `key`: the view leads to it, and it exists.
pub open spec fn leads_to<E, H, V, I>(
    all: ContextsView<E, H, V, I>,
    view: ViewId,
    key: ContextKey,
) -> bool {
    &&& all.views.contains_key(view)
    &&& all.views[view] == key
    &&& all.contexts.contains_key(key)
}

/// The messages of `view` go to no source.
pub open spec fn leads_nowhere<E, H, V, I>(all: ContextsView<E, H, V, I>, view: ViewId) -> bool {
    forall|key: ContextKey| !#[trigger] leads_to(all, view, key)
}

/// At first there are no sources, and no view leads anywhere.
pub proof fn law_at_first_there_are_no_sources<E, H, V, I>(res: DragContexts<E, H, V, I>)
    requires
        call_ensures(DragContexts::<E, H, V, I>::new, (), res),
    ensures
        forall|key: ContextKey| !#[trigger] res@.contexts.contains_key(key),
        forall|view: ViewId| !#[trigger] res@.views.contains_key(view),
        res@.next_key == 0,
{
}

/// A new source gets a key that no source has had before and that no view leads to. Every other
/// source stays as it is, and so does where the views lead. Only the last key cannot be given out.
pub proof fn law_new_source_gets_a_new_key<E, H, V, I>(
    all: &mut DragContexts<E, H, V, I>,
    context: PlatformDragContext<E, H, V, I>,
    res: Option<ContextKey>,
)
    requires
        old(all)@.valid(),
        call_ensures(DragContexts::<E, H, V, I>::add, (all, context), res),
    ensures
        res is None <==> old(all)@.next_key == u64::MAX,
        res is None ==> final(all)@ == old(all)@,
        res matches Some(key) ==> {
            &&& key == old(all)@.next_key
            &&& !old(all)@.contexts.contains_key(key)
            &&& forall|view: ViewId| !#[trigger] leads_to(final(all)@, view, key)
            &&& final(all)@.contexts == old(all)@.contexts.insert(key, context@)
            &&& final(all)@.views == old(all)@.views
            &&& final(all)@.next_key == key + 1
        },
{
}

/// A source is found by its key exactly while it exists, and as it is.
pub proof fn law_source_is_found_by_its_key<E, H, V, I>(
    all: &DragContexts<E, H, V, I>,
    key: ContextKey,
    res: Option<&PlatformDragContext<E, H, V, I>>,
)
    requires
        call_ensures(DragContexts::<E, H, V, I>::context, (all, key), res),
    ensures
        res is Some <==> all@.contexts.contains_key(key),
        res is Some ==> res->0@ == all@.contexts[key],
{
}

/// The view of a source leads to the source that it is assigned, in place of any other. No other
/// view changes, and no source does.
pub proof fn law_view_leads_where_it_is_assigned<E, H, V, I>(
    all: &mut DragContexts<E, H, V, I>,
    key: ContextKey,
    target: ContextKey,
)
    requires
        old(all)@.valid(),
        old(all)@.contexts.contains_key(key),
        target < old(all)@.next_key,
        call_ensures(DragContexts::<E, H, V, I>::assign_weak_self, (all, key, target), ()),
    ensures
        old(all)@.contexts.contains_key(target) ==> leads_to(
            final(all)@,
            old(all)@.contexts[key].view,
            target,
        ),
        final(all)@ == (ContextsView {
            views: old(all)@.views.insert(old(all)@.contexts[key].view, target),
            ..old(all)@
        }),
{
}

/// Assigning a source and taking it back touches the view of that source and no other.
pub proof fn law_source_assigns_its_own_view<E, H, V, I>(
    source: &PlatformDragContext<E, H, V, I>,
    assigned: &mut HashMap<ViewId, ContextKey>,
    unassigned: &mut HashMap<ViewId, ContextKey>,
    key: ContextKey,
)
    requires
        call_ensures(
            PlatformDragContext::<E, H, V, I>::assign_weak_self,
            (source, assigned, key),
            (),
        ),
        call_ensures(PlatformDragContext::<E, H, V, I>::unassign, (source, unassigned), ()),
    ensures
        final(assigned)@.contains_key(source@.view),
        final(assigned)@[source@.view] == key,
        forall|view: ViewId|
            view != source@.view ==> {
                let before = old(assigned)@;
                &&& #[trigger] final(assigned)@.contains_key(view) <==> before.contains_key(view)
                &&& before.contains_key(view) ==> final(assigned)@[view] == before[view]
            },
        !final(unassigned)@.contains_key(source@.view),
        forall|view: ViewId|
            view != source@.view ==> {
                let before = old(unassigned)@;
                &&& #[trigger] final(unassigned)@.contains_key(view) <==> before.contains_key(view)
                &&& before.contains_key(view) ==> final(unassigned)@[view] == before[view]
            },
{
}

/// A source that goes is handed out as it was. Its view leads nowhere then. Every other source and
/// every other view stays as it is. A source that does not exist cannot go.
pub proof fn law_gone_source_is_handed_out<E, H, V, I>(
    all: &mut DragContexts<E, H, V, I>,
    key: ContextKey,
    res: Option<PlatformDragContext<E, H, V, I>>,
)
    requires
        old(all)@.valid(),
        call_ensures(DragContexts::<E, H, V, I>::drop_context, (all, key), res),
    ensures
        res is Some <==> old(all)@.contexts.contains_key(key),
        res is None ==> final(all)@ == old(all)@,
        res matches Some(gone) ==> {
            &&& gone@ == old(all)@.contexts[key]
            &&& final(all)@ == (ContextsView {
                contexts: old(all)@.contexts.remove(key),
                views: old(all)@.views.remove(gone@.view),
                ..old(all)@
            })
            &&& leads_nowhere(final(all)@, gone@.view)
            &&& forall|view: ViewId| !#[trigger] leads_to(final(all)@, view, key)
        },
{
}

/// The source that gets the messages of a view is the one that the view leads to, if it exists.
pub proof fn law_messages_go_where_the_view_leads<E, H, V, I>(
    all: &DragContexts<E, H, V, I>,
    view: ViewId,
    res: Option<ContextKey>,
)
    requires
        call_ensures(DragContexts::<E, H, V, I>::with_state, (all, view), res),
    ensures
        forall|key: ContextKey| res == Some(key) <==> #[trigger] leads_to(all@, view, key),
{
}

/// A mouse button going down in a view, left or right, is stored by the source that the view leads
/// to, whatever that source had seen before: its last such event is this very one then. Nothing
/// else changes. Where the view leads nowhere, nothing changes at all.
pub proof fn law_mouse_down_reaches_its_source<E, H, V, I>(
    all: &mut DragContexts<E, H, V, I>,
    view: ViewId,
    event: MouseEvent<E>,
    key: ContextKey,
)
    requires
        old(all)@.valid(),
        ({
            ||| call_ensures(DragContexts::<E, H, V, I>::mouse_down, (all, view, event), ())
            ||| call_ensures(DragContexts::<E, H, V, I>::right_mouse_down, (all, view, event), ())
        }),
    ensures
        leads_to(old(all)@, view, key) ==> {
            &&& leads_to(final(all)@, view, key)
            &&& final(all)@.contexts[key].last_mouse_down == Some(event)
            &&& final(all)@ == (ContextsView {
                contexts: old(all)@.contexts.insert(
                    key,
                    ContextView { last_mouse_down: Some(event), ..old(all)@.contexts[key] },
                ),
                ..old(all)@
            })
        },
        leads_nowhere(old(all)@, view) ==> final(all)@ == old(all)@,
{
    assert(old(all)@.state_of(view) matches Some(key) ==> leads_to(old(all)@, view, key));
}

/// A mouse button going up in a view, left or right, is stored by the source that the view leads
/// to, whatever that source had seen before. Nothing else changes. Where the view leads nowhere,
/// nothing changes at all.
pub proof fn law_mouse_up_reaches_its_source<E, H, V, I>(
    all: &mut DragContexts<E, H, V, I>,
    view: ViewId,
    event: MouseEvent<E>,
    key: ContextKey,
)
    requires
        old(all)@.valid(),
        ({
            ||| call_ensures(DragContexts::<E, H, V, I>::mouse_up, (all, view, event), ())
            ||| call_ensures(DragContexts::<E, H, V, I>::right_mouse_up, (all, view, event), ())
        }),
    ensures
        leads_to(old(all)@, view, key) ==> {
            &&& leads_to(final(all)@, view, key)
            &&& final(all)@.contexts[key].last_mouse_up == Some(event)
            &&& final(all)@ == (ContextsView {
                contexts: old(all)@.contexts.insert(
                    key,
                    ContextView { last_mouse_up: Some(event), ..old(all)@.contexts[key] },
                ),
                ..old(all)@
            })
        },
        leads_nowhere(old(all)@, view) ==> final(all)@ == old(all)@,
{
    assert(old(all)@.state_of(view) matches Some(key) ==> leads_to(old(all)@, view, key));
}

/// A scroll, magnify or rotate event of a view is stored by the source that the view leads to,
/// whatever that source had seen before. Nothing else changes. Where the view leads nowhere,
/// nothing changes at all.
pub proof fn law_gesture_event_reaches_its_source<E, H, V, I>(
    all: &mut DragContexts<E, H, V, I>,
    view: ViewId,
    event: MomentumEvent<E>,
    key: ContextKey,
)
    requires
        old(all)@.valid(),
        ({
            ||| call_ensures(DragContexts::<E, H, V, I>::scroll_wheel, (all, view, event), ())
            ||| call_ensures(DragContexts::<E, H, V, I>::magnify_with_event, (all, view, event), ())
            ||| call_ensures(DragContexts::<E, H, V, I>::rotate_with_event, (all, view, event), ())
        }),
    ensures
        leads_to(old(all)@, view, key) ==> {
            &&& leads_to(final(all)@, view, key)
            &&& final(all)@.contexts[key].last_momentum == Some(event)
            &&& final(all)@ == (ContextsView {
                contexts: old(all)@.contexts.insert(
                    key,
                    ContextView { last_momentum: Some(event), ..old(all)@.contexts[key] },
                ),
                ..old(all)@
            })
        },
        leads_nowhere(old(all)@, view) ==> final(all)@ == old(all)@,
{
    assert(old(all)@.state_of(view) matches Some(key) ==> leads_to(old(all)@, view, key));
}

/// An opened session is kept by the source that it was opened for. Nothing else changes.
pub proof fn law_opened_session_reaches_its_source<E, H, V, I>(
    all: &mut DragContexts<E, H, V, I>,
    key: ContextKey,
    session: DragSession<H, V, I>,
    n: NSInteger,
)
    requires
        old(all)@.valid(),
        old(all)@.contexts.contains_key(key),
        call_ensures(DragContexts::<E, H, V, I>::session_opened, (all, key, session, n), ()),
    ensures
        final(all)@ == (ContextsView {
            contexts: old(all)@.contexts.insert(
                key,
                ContextView {
                    sessions: old(all)@.contexts[key].sessions.insert(n, session),
                    ..old(all)@.contexts[key]
                },
            ),
            ..old(all)@
        }),
{
}

/// The end of a drag makes its source forget it, and no source forget any other drag. What is to be
/// done ends that drag.
pub proof fn law_end_reaches_its_source<E, H, V, I>(
    all: &mut DragContexts<E, H, V, I>,
    key: ContextKey,
    n: NSInteger,
    operations: Vec<DropOperation>,
    current_event: Option<CurrentEvent>,
    has_delegate: bool,
    res: Vec<EndAction<H>>,
)
    requires
        old(all)@.valid(),
        old(all)@.contexts.contains_key(key),
        old(all)@.contexts[key].sessions.contains_key(n),
        call_ensures(
            DragContexts::<E, H, V, I>::drag_ended,
            (all, key, n, operations, current_event, has_delegate),
            res,
        ),
    ensures
        final(all)@ == (ContextsView {
            contexts: old(all)@.contexts.insert(
                key,
                ContextView {
                    sessions: old(all)@.contexts[key].sessions.remove(n),
                    ..old(all)@.contexts[key]
                },
            ),
            ..old(all)@
        }),
        ends_drag(
            old(all)@.contexts[key],
            n,
            operations@,
            current_event,
            has_delegate,
            res@,
        ),
{
}

/// The end of a drag from a view makes the source that the view leads to forget that drag, and what
/// is to be done ends it. Where the view leads nowhere, there is nothing to be done, and nothing
/// changes.
pub proof fn law_end_reaches_the_source_of_its_view<E, H, V, I>(
    all: &mut DragContexts<E, H, V, I>,
    view: ViewId,
    n: NSInteger,
    operations: Vec<DropOperation>,
    current_event: Option<CurrentEvent>,
    has_delegate: bool,
    res: Vec<EndAction<H>>,
    key: ContextKey,
)
    requires
        old(all)@.valid(),
        leads_to(old(all)@, view, key) ==> old(all)@.contexts[key].sessions.contains_key(n),
        call_ensures(
            DragContexts::<E, H, V, I>::dragging_session_ended_at_point,
            (all, view, n, operations, current_event, has_delegate),
            res,
        ),
    ensures
        leads_to(old(all)@, view, key) ==> {
            &&& final(all)@ == (ContextsView {
                contexts: old(all)@.contexts.insert(
                    key,
                    ContextView {
                        sessions: old(all)@.contexts[key].sessions.remove(n),
                        ..old(all)@.contexts[key]
                    },
                ),
                ..old(all)@
            })
            &&& ends_drag(
                old(all)@.contexts[key],
                n,
                operations@,
                current_event,
                has_delegate,
                res@,
            )
        },
        leads_nowhere(old(all)@, view) ==> final(all)@ == old(all)@ && res@.len() == 0,
{
    assert(old(all)@.state_of(view) matches Some(key) ==> leads_to(old(all)@, view, key));
}

/// What a view is asked about its drags is answered as by the source that it leads to.
pub proof fn law_view_answers_as_its_source<E, H, V, I>(
    all: &DragContexts<E, H, V, I>,
    view: ViewId,
    key: ContextKey,
    source: &PlatformDragContext<E, H, V, I>,
    n: NSInteger,
    event_type: NSEventType,
    has_delegate: bool,
    of_view: (NSDragOperation, bool, OrderingQuery),
    of_source: (NSDragOperation, bool, OrderingQuery),
)
    requires
        leads_to(all@, view, key),
        call_ensures(DragContexts::<E, H, V, I>::context, (all, key), Some(source)),
        call_ensures(
            DragContexts::<E, H, V, I>::source_operation_mask_for_dragging_context,
            (all, view, n),
            of_view.0,
        ),
        call_ensures(
            PlatformDragContext::<E, H, V, I>::source_operation_mask_for_dragging_context,
            (source, n),
            of_source.0,
        ),
        call_ensures(DragContexts::<E, H, V, I>::has_session, (all, view, n), of_view.1),
        call_ensures(PlatformDragContext::<E, H, V, I>::has_session, (source, n), of_source.1),
        call_ensures(
            DragContexts::<E, H, V, I>::should_delay_window_ordering,
            (all, view, event_type, has_delegate),
            of_view.2,
        ),
        call_ensures(
            PlatformDragContext::<E, H, V, I>::should_delay_window_ordering,
            (source, event_type, has_delegate),
            of_source.2,
        ),
    ensures
        of_view == of_source,
{
}

/// A view that leads nowhere offers no operations, needs no drag under way for a drag to move or
/// end, and keeps the order of the windows.
pub proof fn law_view_that_leads_nowhere_has_defaults<E, H, V, I>(
    all: &DragContexts<E, H, V, I>,
    view: ViewId,
    n: NSInteger,
    event_type: NSEventType,
    has_delegate: bool,
    res: (NSDragOperation, bool, OrderingQuery),
)
    requires
        leads_nowhere(all@, view),
        call_ensures(
            DragContexts::<E, H, V, I>::source_operation_mask_for_dragging_context,
            (all, view, n),
            res.0,
        ),
        call_ensures(DragContexts::<E, H, V, I>::has_session, (all, view, n), res.1),
        call_ensures(
            DragContexts::<E, H, V, I>::should_delay_window_ordering,
            (all, view, event_type, has_delegate),
            res.2,
        ),
    ensures
        res.0 == 0,
        res.1,
        res.2 == OrderingQuery::Answer(true),
{
    assert(all@.state_of(view) matches Some(key) ==> leads_to(all@, view, key));
}

/// The delegate, if there is one, hears of every move of a drag from a view, under the names of the
/// source that the view leads to and of the drag. Where the view leads nowhere, it hears nothing.
pub proof fn law_delegate_hears_of_moves_of_its_view<E, H, V, I>(
    all: &DragContexts<E, H, V, I>,
    view: ViewId,
    key: ContextKey,
    n: NSInteger,
    has_delegate: bool,
    res: Option<MoveNotification>,
)
    requires
        leads_to(all@, view, key) ==> all@.contexts[key].sessions.contains_key(n),
        call_ensures(
            DragContexts::<E, H, V, I>::dragging_session_moved_to_point,
            (all, view, n, has_delegate),
            res,
        ),
    ensures
        leads_to(all@, view, key) ==> {
            &&& res is Some <==> has_delegate
            &&& res is Some ==> res->0.id == all@.contexts[key].id
            &&& res is Some ==> res->0.session_id == all@.contexts[key].sessions[n].session_id
        },
        leads_nowhere(all@, view) ==> res is None,
{
    assert(all@.state_of(view) matches Some(key) ==> leads_to(all@, view, key));
}

} // verus!
