//! All drag sources, and the views that lead to them.
use crate::context::{
    ContextView, EndAction, MoveNotification, NSInteger, OrderingQuery, PlatformDragContext, ViewId,
};
use crate::event::{CurrentEvent, MomentumEvent, MouseEvent, NSEventType};
use crate::operation::{DropOperation, NSDragOperation, NS_DRAG_OPERATION_NONE};
use crate::session::DragSession;
use std::collections::HashMap;
use vstd::prelude::*;

verus! {

/// Names a drag source among all that there are or were.
pub type ContextKey = u64;

/// All drag sources that exist, and which of them each view leads to.
///
/// A view may lead to a source that is gone. It then counts as leading nowhere.
#[derive(Debug)]
pub struct DragContexts<E, H, V, I> {
    contexts: HashMap<ContextKey, PlatformDragContext<E, H, V, I>>,
    views: HashMap<ViewId, ContextKey>,
    next_key: ContextKey,
}

/// All drag sources as a value.
#[verifier::ext_equal]
pub struct ContextsView<E, H, V, I> {
    /// The sources that exist.
    pub contexts: Map<ContextKey, ContextView<E, H, V, I>>,
    /// The source that each view leads to.
    pub views: Map<ViewId, ContextKey>,
    /// The key of the next source. Every key that was given out is smaller.
    pub next_key: ContextKey,
}

impl<E, H, V, I> ContextsView<E, H, V, I> {
    /// Only keys that were given out are in use.
    pub open spec fn valid(self) -> bool {
        &&& forall|key: ContextKey| #[trigger]
            self.contexts.contains_key(key) ==> key < self.next_key
        &&& forall|view: ViewId| #[trigger]
            self.views.contains_key(view) ==> self.views[view] < self.next_key
    }

    /// The source that gets the messages of a view.
    pub open spec fn state_of(self, view: ViewId) -> Option<ContextKey> {
        if self.views.contains_key(view) && self.contexts.contains_key(self.views[view]) {
            Some(self.views[view])
        } else {
            None
        }
    }

    /// All sources once there is one more.
    pub open spec fn after_add(self, context: ContextView<E, H, V, I>) -> Self {
        ContextsView {
            contexts: self.contexts.insert(self.next_key, context),
            views: self.views,
            next_key: (self.next_key + 1) as ContextKey,
        }
    }

    /// All sources once the view of the source `key` leads to the source `target`.
    pub open spec fn after_assign(self, key: ContextKey, target: ContextKey) -> Self {
        ContextsView { views: self.views.insert(self.contexts[key].view, target), ..self }
    }

    /// All sources once one of them is gone. Its view leads nowhere then, whichever source it led
    /// to.
    pub open spec fn after_drop(self, key: ContextKey) -> Self {
        if self.contexts.contains_key(key) {
            ContextsView {
                contexts: self.contexts.remove(key),
                views: self.views.remove(self.contexts[key].view),
                next_key: self.next_key,
            }
        } else {
            self
        }
    }

    /// All sources once one of them has changed.
    pub open spec fn after_change(self, key: ContextKey, context: ContextView<E, H, V, I>) -> Self {
        ContextsView { contexts: self.contexts.insert(key, context), ..self }
    }

    /// All sources once a mouse button has gone down in a view.
    pub open spec fn after_mouse_down(self, view: ViewId, event: MouseEvent<E>) -> Self {
        match self.state_of(view) {
            Some(key) => self.after_change(key, self.contexts[key].after_mouse_down(event)),
            None => self,
        }
    }

    /// All sources once a mouse button has gone up in a view.
    pub open spec fn after_mouse_up(self, view: ViewId, event: MouseEvent<E>) -> Self {
        match self.state_of(view) {
            Some(key) => self.after_change(key, self.contexts[key].after_mouse_up(event)),
            None => self,
        }
    }

    /// All sources once a view has got a scroll, magnify or rotate event.
    pub open spec fn after_momentum_event(self, view: ViewId, event: MomentumEvent<E>) -> Self {
        match self.state_of(view) {
            Some(key) => self.after_change(key, self.contexts[key].after_momentum_event(event)),
            None => self,
        }
    }

    /// All sources once a drag from a view has ended.
    pub open spec fn after_drag_ended(
        self,
        view: ViewId,
        dragging_sequence_number: NSInteger,
    ) -> Self {
        match self.state_of(view) {
            Some(key) => self.after_change(
                key,
                self.contexts[key].after_drag_ended(dragging_sequence_number),
            ),
            None => self,
        }
    }

    /// The drag of that number is under way, as far as the view leads to a source at all.
    pub open spec fn knows_session(
        self,
        view: ViewId,
        dragging_sequence_number: NSInteger,
    ) -> bool {
        match self.state_of(view) {
            Some(key) => self.contexts[key].sessions.contains_key(dragging_sequence_number),
            None => true,
        }
    }
}

impl<E, H, V, I> View for DragContexts<E, H, V, I> {
    type V = ContextsView<E, H, V, I>;

    closed spec fn view(&self) -> ContextsView<E, H, V, I> {
        ContextsView {
            contexts: self.contexts@.map_values(|context: PlatformDragContext<E, H, V, I>| context@),
            views: self.views@,
            next_key: self.next_key,
        }
    }
}

impl<E, H, V, I> PlatformDragContext<E, H, V, I> {
    /// Makes the view of this source lead to the source `weak_self`, which is this one.
    pub fn assign_weak_self(&self, views: &mut HashMap<ViewId, ContextKey>, weak_self: ContextKey)
        ensures
            final(views)@ == old(views)@.insert(self@.view, weak_self),
    {
        broadcast use vstd::std_specs::hash::group_hash_axioms;

        views.insert(self.view_id(), weak_self);
    }

    /// Makes the view of this source lead nowhere, as this source goes.
    pub fn unassign(&self, views: &mut HashMap<ViewId, ContextKey>)
        ensures
            final(views)@ == old(views)@.remove(self@.view),
    {
        broadcast use vstd::std_specs::hash::group_hash_axioms;

        views.remove(&self.view_id());
    }
}

impl<E, H, V, I> DragContexts<E, H, V, I> {
    /// No drag sources.
    pub fn new() -> (res: Self)
        ensures
            res@ == (ContextsView {
                contexts: Map::<ContextKey, ContextView<E, H, V, I>>::empty(),
                views: Map::<ViewId, ContextKey>::empty(),
                next_key: 0,
            }),
            res@.valid(),
    {
        let res = DragContexts { contexts: HashMap::new(), views: HashMap::new(), next_key: 0 };
        assert(res@.contexts =~= Map::<ContextKey, ContextView<E, H, V, I>>::empty());
        res
    }

    /// Adds a source, and gives it a key that no source has had before. Fails where all keys have
    /// been given out.
    pub fn add(&mut self, context: PlatformDragContext<E, H, V, I>) -> (res: Option<ContextKey>)
        requires
            old(self)@.valid(),
        ensures
            final(self)@.valid(),
            old(self)@.next_key < ContextKey::MAX ==> {
                &&& res == Some(old(self)@.next_key)
                &&& final(self)@ == old(self)@.after_add(context@)
            },
            old(self)@.next_key == ContextKey::MAX ==> {
                &&& res is None
                &&& final(self)@ == old(self)@
            },
    {
        broadcast use vstd::std_specs::hash::group_hash_axioms;

        if self.next_key == ContextKey::MAX {
            return None;
        }
        let key = self.next_key;
        self.contexts.insert(key, context);
        self.next_key = key + 1;
        assert(self@ =~= old(self)@.after_add(context@));
        Some(key)
    }

    /// The source of that key, if it exists.
    pub fn context(&self, key: ContextKey) -> (res: Option<&PlatformDragContext<E, H, V, I>>)
        ensures
            res is Some <==> self@.contexts.contains_key(key),
            res matches Some(context) ==> context@ == self@.contexts[key],
    {
        broadcast use vstd::std_specs::hash::group_hash_axioms;

        self.contexts.get(&key)
    }

    /// Makes the view of the source `key` lead to the source `weak_self`, in place of any other.
    /// `weak_self` is `key` itself; a key of a source that is gone would be of no use, but is in
    /// order.
    pub fn assign_weak_self(&mut self, key: ContextKey, weak_self: ContextKey)
        requires
            old(self)@.valid(),
            old(self)@.contexts.contains_key(key),
            weak_self < old(self)@.next_key,
        ensures
            final(self)@.valid(),
            final(self)@ == old(self)@.after_assign(key, weak_self),
    {
        broadcast use vstd::std_specs::hash::group_hash_axioms;

        let context = self.contexts.remove(&key).unwrap();
        context.assign_weak_self(&mut self.views, weak_self);
        self.contexts.insert(key, context);
        assert(self@ =~= old(self)@.after_assign(key, weak_self));
    }

    /// A source goes. It is handed out, with the drags that it still has under way.
    pub fn drop_context(&mut self, key: ContextKey) -> (res: Option<
        PlatformDragContext<E, H, V, I>,
    >)
        requires
            old(self)@.valid(),
        ensures
            final(self)@.valid(),
            final(self)@ == old(self)@.after_drop(key),
            res is Some <==> old(self)@.contexts.contains_key(key),
            res matches Some(context) ==> context@ == old(self)@.contexts[key],
    {
        broadcast use vstd::std_specs::hash::group_hash_axioms;

        match self.contexts.remove(&key) {
            Some(context) => {
                context.unassign(&mut self.views);
                assert(self@ =~= old(self)@.after_drop(key));
                Some(context)
            },
            None => {
                assert(self@ =~= old(self)@);
                None
            },
        }
    }

    /// The source that gets the messages of a view. Without one, a message is answered as if there
    /// were no drag source.
    pub fn with_state(&self, view: ViewId) -> (res: Option<ContextKey>)
        ensures
            res == self@.state_of(view),
    {
        broadcast use vstd::std_specs::hash::group_hash_axioms;

        match self.views.get(&view) {
            Some(key) => if self.contexts.contains_key(key) {
                Some(*key)
            } else {
                None
            },
            None => None,
        }
    }

    /// The left mouse button went down in a view.
    pub fn mouse_down(&mut self, view: ViewId, event: MouseEvent<E>)
        requires
            old(self)@.valid(),
        ensures
            final(self)@.valid(),
            final(self)@ == old(self)@.after_mouse_down(view, event),
    {
        broadcast use vstd::std_specs::hash::group_hash_axioms;

        if let Some(key) = self.with_state(view) {
            let mut context = self.contexts.remove(&key).unwrap();
            context.on_mouse_down(event);
            self.contexts.insert(key, context);
            assert(self@ =~= old(self)@.after_mouse_down(view, event));
        }
    }

    /// The left mouse button went up in a view.
    pub fn mouse_up(&mut self, view: ViewId, event: MouseEvent<E>)
        requires
            old(self)@.valid(),
        ensures
            final(self)@.valid(),
            final(self)@ == old(self)@.after_mouse_up(view, event),
    {
        broadcast use vstd::std_specs::hash::group_hash_axioms;

        if let Some(key) = self.with_state(view) {
            let mut context = self.contexts.remove(&key).unwrap();
            context.on_mouse_up(event);
            self.contexts.insert(key, context);
            assert(self@ =~= old(self)@.after_mouse_up(view, event));
        }
    }

    /// The right mouse button went down in a view.
    pub fn right_mouse_down(&mut self, view: ViewId, event: MouseEvent<E>)
        requires
            old(self)@.valid(),
        ensures
            final(self)@.valid(),
            final(self)@ == old(self)@.after_mouse_down(view, event),
    {
        broadcast use vstd::std_specs::hash::group_hash_axioms;

        if let Some(key) = self.with_state(view) {
            let mut context = self.contexts.remove(&key).unwrap();
            context.on_right_mouse_down(event);
            self.contexts.insert(key, context);
            assert(self@ =~= old(self)@.after_mouse_down(view, event));
        }
    }

    /// The right mouse button went up in a view.
    pub fn right_mouse_up(&mut self, view: ViewId, event: MouseEvent<E>)
        requires
            old(self)@.valid(),
        ensures
            final(self)@.valid(),
            final(self)@ == old(self)@.after_mouse_up(view, event),
    {
        broadcast use vstd::std_specs::hash::group_hash_axioms;

        if let Some(key) = self.with_state(view) {
            let mut context = self.contexts.remove(&key).unwrap();
            context.on_right_mouse_up(event);
            self.contexts.insert(key, context);
            assert(self@ =~= old(self)@.after_mouse_up(view, event));
        }
    }

    /// A view is scrolled.
    pub fn scroll_wheel(&mut self, view: ViewId, event: MomentumEvent<E>)
        requires
            old(self)@.valid(),
        ensures
            final(self)@.valid(),
            final(self)@ == old(self)@.after_momentum_event(view, event),
    {
        self.momentum_event(view, event);
    }

    /// A view is magnified.
    pub fn magnify_with_event(&mut self, view: ViewId, event: MomentumEvent<E>)
        requires
            old(self)@.valid(),
        ensures
            final(self)@.valid(),
            final(self)@ == old(self)@.after_momentum_event(view, event),
    {
        self.momentum_event(view, event);
    }

    /// A view is rotated.
    pub fn rotate_with_event(&mut self, view: ViewId, event: MomentumEvent<E>)
        requires
            old(self)@.valid(),
        ensures
            final(self)@.valid(),
            final(self)@ == old(self)@.after_momentum_event(view, event),
    {
        self.momentum_event(view, event);
    }

    /// A view got a scroll, magnify or rotate event.
    fn momentum_event(&mut self, view: ViewId, event: MomentumEvent<E>)
        requires
            old(self)@.valid(),
        ensures
            final(self)@.valid(),
            final(self)@ == old(self)@.after_momentum_event(view, event),
    {
        broadcast use vstd::std_specs::hash::group_hash_axioms;

        if let Some(key) = self.with_state(view) {
            let mut context = self.contexts.remove(&key).unwrap();
            context.on_momentum_event(event);
            self.contexts.insert(key, context);
            assert(self@ =~= old(self)@.after_momentum_event(view, event));
        }
    }

    /// The platform opened a session for a drag of the source `key`, and gave it a number.
    pub fn session_opened(
        &mut self,
        key: ContextKey,
        session: DragSession<H, V, I>,
        dragging_sequence_number: NSInteger,
    )
        requires
            old(self)@.valid(),
            old(self)@.contexts.contains_key(key),
        ensures
            final(self)@.valid(),
            final(self)@ == old(self)@.after_change(
                key,
                old(self)@.contexts[key].after_session_opened(session, dragging_sequence_number),
            ),
    {
        broadcast use vstd::std_specs::hash::group_hash_axioms;

        let mut context = self.contexts.remove(&key).unwrap();
        context.session_opened(session, dragging_sequence_number);
        self.contexts.insert(key, context);
        assert(self@ =~= old(self)@.after_change(
            key,
            old(self)@.contexts[key].after_session_opened(session, dragging_sequence_number),
        ));
    }

    /// A drag of the source `key` ended. Says what is to be done about it, in order.
    pub fn drag_ended(
        &mut self,
        key: ContextKey,
        dragging_sequence_number: NSInteger,
        operations: Vec<DropOperation>,
        current_event: Option<CurrentEvent>,
        has_delegate: bool,
    ) -> (res: Vec<EndAction<H>>)
        requires
            old(self)@.valid(),
            old(self)@.contexts.contains_key(key),
            old(self)@.contexts[key].sessions.contains_key(dragging_sequence_number),
        ensures
            final(self)@.valid(),
            final(self)@ == old(self)@.after_change(
                key,
                old(self)@.contexts[key].after_drag_ended(dragging_sequence_number),
            ),
            res@ == old(self)@.contexts[key].end_actions(
                dragging_sequence_number,
                operations@,
                current_event,
                has_delegate,
            ),
    {
        broadcast use vstd::std_specs::hash::group_hash_axioms;

        let mut context = self.contexts.remove(&key).unwrap();
        let actions = context.drag_ended(
            dragging_sequence_number,
            operations,
            current_event,
            has_delegate,
        );
        self.contexts.insert(key, context);
        assert(self@ =~= old(self)@.after_change(
            key,
            old(self)@.contexts[key].after_drag_ended(dragging_sequence_number),
        ));
        actions
    }

    /// The operations that a drag from a view offers to drop sites.
    pub fn source_operation_mask_for_dragging_context(
        &self,
        view: ViewId,
        dragging_sequence_number: NSInteger,
    ) -> (res: NSDragOperation)
        ensures
            res == match self@.state_of(view) {
                Some(key) => self@.contexts[key].offered_operations(dragging_sequence_number),
                None => NS_DRAG_OPERATION_NONE,
            },
    {
        broadcast use vstd::std_specs::hash::group_hash_axioms;

        match self.with_state(view) {
            Some(key) => self.contexts.get(
                &key,
            ).unwrap().source_operation_mask_for_dragging_context(dragging_sequence_number),
            None => NS_DRAG_OPERATION_NONE,
        }
    }

    /// Whether the end or the move of a drag can be told: the drag of that number is under way, or
    /// the view leads to no source.
    pub fn has_session(&self, view: ViewId, dragging_sequence_number: NSInteger) -> (res: bool)
        ensures
            res == self@.knows_session(view, dragging_sequence_number),
    {
        broadcast use vstd::std_specs::hash::group_hash_axioms;

        match self.with_state(view) {
            Some(key) => self.contexts.get(&key).unwrap().has_session(dragging_sequence_number),
            None => true,
        }
    }

    /// A drag from a view ended. Says what is to be done about it, in order.
    pub fn dragging_session_ended_at_point(
        &mut self,
        view: ViewId,
        dragging_sequence_number: NSInteger,
        operations: Vec<DropOperation>,
        current_event: Option<CurrentEvent>,
        has_delegate: bool,
    ) -> (res: Vec<EndAction<H>>)
        requires
            old(self)@.valid(),
            old(self)@.knows_session(view, dragging_sequence_number),
        ensures
            final(self)@.valid(),
            final(self)@ == old(self)@.after_drag_ended(view, dragging_sequence_number),
            res@ == match old(self)@.state_of(view) {
                Some(key) => old(self)@.contexts[key].end_actions(
                    dragging_sequence_number,
                    operations@,
                    current_event,
                    has_delegate,
                ),
                None => Seq::<EndAction<H>>::empty(),
            },
    {
        match self.with_state(view) {
            Some(key) => self.drag_ended(
                key,
                dragging_sequence_number,
                operations,
                current_event,
                has_delegate,
            ),
            None => Vec::new(),
        }
    }

    /// A drag from a view moved. Says what is to be told the delegate, if anything.
    pub fn dragging_session_moved_to_point(
        &self,
        view: ViewId,
        dragging_sequence_number: NSInteger,
        has_delegate: bool,
    ) -> (res: Option<MoveNotification>)
        requires
            self@.knows_session(view, dragging_sequence_number),
        ensures
            res == match self@.state_of(view) {
                Some(key) => if has_delegate {
                    Some(
                        MoveNotification {
                            id: self@.contexts[key].id,
                            session_id:
                                self@.contexts[key].sessions[dragging_sequence_number].session_id,
                        },
                    )
                } else {
                    None
                },
                None => None,
            },
    {
        broadcast use vstd::std_specs::hash::group_hash_axioms;

        match self.with_state(view) {
            Some(key) => self.contexts.get(&key).unwrap().drag_moved(
                dragging_sequence_number,
                has_delegate,
            ),
            None => None,
        }
    }

    /// How to find out whether the order of the windows stays as it is while a mouse button is down
    /// in a view. It does where the view leads to no source.
    pub fn should_delay_window_ordering(
        &self,
        view: ViewId,
        event_type: NSEventType,
        has_delegate: bool,
    ) -> (res: OrderingQuery)
        ensures
            res == match self@.state_of(view) {
                Some(key) => self@.contexts[key].ordering_query(event_type, has_delegate),
                None => OrderingQuery::Answer(true),
            },
    {
        broadcast use vstd::std_specs::hash::group_hash_axioms;

        match self.with_state(view) {
            Some(key) => self.contexts.get(&key).unwrap().should_delay_window_ordering(
                event_type,
                has_delegate,
            ),
            None => OrderingQuery::Answer(true),
        }
    }
}

} // verus!
