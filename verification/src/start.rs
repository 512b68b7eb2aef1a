//! The start of a drag, step by step.
//!
//! A drag starts with `PlatformDragContext::start_drag`, goes through the steps that
//! `PlatformDragContext::continue_start` gives, and ends with the number of the platform's session
//! in `PlatformDragContext::session_opened`.
use crate::context::{
    ContextView, MouseUpStep, OpenAction, PlatformDragContext, SynthesizedEvent,
};
use crate::error::NativeExtensionsError;
use crate::session::{
    each_item_provided, handles_of, has_providers, DataProviderEntry, DataProviderId,
    DragConfiguration, DragItem, DragRequest, DragSession, DragSessionId,
};
use std::collections::HashMap;
use vstd::prelude::*;

verus! {

/// What a drag is started with.
#[derive(Debug)]
pub struct StartRequest<P, H, V, I> {
    /// What to drag.
    pub configuration: DragConfiguration<V, I>,
    /// The data providers, of which each item takes its own.
    pub providers: HashMap<DataProviderId, DataProviderEntry<P, H>>,
    /// The name that the application knows the drag by.
    pub session_id: DragSessionId,
}

/// What comes next in the start of a drag.
#[derive(Debug)]
pub enum StartStage<P, H, V, I> {
    /// Let go of the mouse button, for all that the view knows.
    ReleaseMouse(MouseUpStep, StartRequest<P, H, V, I>),
    /// Make the items.
    MakeItems(StartRequest<P, H, V, I>),
    /// Open a session of the platform.
    OpenSession(DragSession<H, V, I>),
}

/// A drag that is being started.
#[derive(Debug)]
pub struct DragStart<P, H, V, I> {
    stage: StartStage<P, H, V, I>,
}

/// A dragging item to be made: one with the pasteboard writer that `provider` makes out of `handle`
/// and `flags`, and with `image` as its contents and its frame.
#[derive(Debug)]
pub struct ItemRequest<P, H, I> {
    /// The provider that makes the writer.
    pub provider: P,
    /// The handle that the provider gets.
    pub handle: H,
    /// The two flags that the provider gets behind the handle.
    pub flags: (bool, bool),
    /// The image.
    pub image: I,
}

/// A step of the start of a drag: something to be done, and how to go on after it.
#[derive(Debug)]
pub enum StartStep<'a, E, P, H, V, I> {
    /// Send an event to the window of the view.
    SendEvent {
        /// The event, if there is one to send.
        event: Option<SynthesizedEvent<'a, E>>,
        /// The drag to go on with.
        next: DragStart<P, H, V, I>,
    },
    /// Make the items.
    MakeItems {
        /// The items.
        items: Vec<ItemRequest<P, H, I>>,
        /// The providers that no item took.
        surplus: HashMap<DataProviderId, DataProviderEntry<P, H>>,
        /// The drag to go on with.
        next: DragStart<P, H, V, I>,
    },
    /// Open a session of the platform. Its number goes to `session_opened`.
    OpenSession {
        /// What is to be done, in this order.
        actions: Vec<OpenAction<&'a E>>,
        /// The drag.
        session: DragSession<H, V, I>,
    },
    /// The drag does not start.
    Failed {
        /// Why.
        error: NativeExtensionsError,
        /// The drag. Its handles are let go of with it.
        session: DragSession<H, V, I>,
    },
}

impl<P, H, V, I> StartRequest<P, H, V, I> {
    /// Each item has a data provider of its own.
    pub open spec fn each_item_provided(self) -> bool {
        each_item_provided(self.configuration.items@, self.providers@)
    }
}

/// `made` stands for the dragging item of `item`, given its provider and handle.
pub open spec fn is_item_request<P, H: Clone, V, I: Clone>(
    item: DragItem<V, I>,
    entry: DataProviderEntry<P, H>,
    made: ItemRequest<P, H, I>,
) -> bool {
    &&& made.provider == entry.provider
    &&& cloned(entry.handle, made.handle)
    &&& made.flags == (false, true)
    &&& cloned(item.image, made.image)
}

/// `made` stands for the dragging items of `items`, item by item.
pub open spec fn are_item_requests<P, H: Clone, V, I: Clone>(
    items: Seq<DragItem<V, I>>,
    providers: Map<DataProviderId, DataProviderEntry<P, H>>,
    made: Seq<ItemRequest<P, H, I>>,
) -> bool {
    &&& made.len() == items.len()
    &&& forall|k: int|
        0 <= k < items.len() ==> is_item_request(
            items[k],
            providers[items[k].data_provider_id],
            #[trigger] made[k],
        )
}

/// The providers that the items take.
pub open spec fn taken_by<V, I>(items: Seq<DragItem<V, I>>) -> Set<DataProviderId> {
    items.map_values(|item: DragItem<V, I>| item.data_provider_id).to_set()
}

/// `session` is the drag of `request`, with the handle of each item.
pub open spec fn is_session_of<P, H, V, I>(
    request: StartRequest<P, H, V, I>,
    session: DragSession<H, V, I>,
) -> bool {
    &&& session.session_id == request.session_id
    &&& session.configuration == request.configuration
    &&& session.data_provider_handles@ == handles_of(
        request.configuration.items@,
        request.providers@,
    )
}

/// `step` is what a start that has come to `stage` does next.
pub open spec fn is_step<'a, E, P, H: Clone, V, I: Clone>(
    context: ContextView<E, H, V, I>,
    stage: StartStage<P, H, V, I>,
    has_window: bool,
    step: StartStep<'a, E, P, H, V, I>,
) -> bool {
    match stage {
        StartStage::ReleaseMouse(MouseUpStep::FinishMomentum, request) => {
            &&& step matches StartStep::SendEvent { event, next }
            &&& event == context.momentum_end(has_window)
            &&& next.stage() == StartStage::ReleaseMouse(MouseUpStep::ReleaseButton, request)
        },
        StartStage::ReleaseMouse(MouseUpStep::ReleaseButton, request) => {
            &&& step matches StartStep::SendEvent { event, next }
            &&& event == context.button_release(has_window)
            &&& next.stage() == StartStage::MakeItems(request)
        },
        StartStage::MakeItems(request) => {
            let items = request.configuration.items@;
            &&& step matches StartStep::MakeItems { items: made, surplus, next }
            &&& are_item_requests(items, request.providers@, made@)
            &&& surplus@ == request.providers@.remove_keys(taken_by(items))
            &&& next.stage() matches StartStage::OpenSession(session)
            &&& is_session_of(request, session)
        },
        StartStage::OpenSession(session) => match context.last_mouse_down {
            Some(_) => {
                &&& step matches StartStep::OpenSession { actions, session: opened }
                &&& actions@ == context.open_actions(session)
                &&& opened == session
            },
            None => {
                &&& step matches StartStep::Failed { error, session: given_up }
                &&& error == NativeExtensionsError::MouseEventNotFound
                &&& given_up == session
            },
        },
    }
}

impl<P, H, V, I> DragStart<P, H, V, I> {
    /// What comes next.
    pub closed spec fn stage(self) -> StartStage<P, H, V, I> {
        self.stage
    }

    /// If the items are made next, each of them has a data provider of its own.
    pub open spec fn can_continue(self) -> bool {
        self.stage() matches StartStage::MakeItems(request) ==> request.each_item_provided()
    }

    /// Whether the data providers are there, if the items are made next.
    pub fn has_providers(&self) -> (res: bool)
        ensures
            res == self.can_continue(),
    {
        match &self.stage {
            StartStage::MakeItems(request) => has_providers(
                &request.configuration,
                &request.providers,
            ),
            _ => true,
        }
    }
}

/// Takes from the providers what the items of a drag need.
fn make_items<P, H: Clone, V, I: Clone>(request: StartRequest<P, H, V, I>) -> (res: (
    Vec<ItemRequest<P, H, I>>,
    HashMap<DataProviderId, DataProviderEntry<P, H>>,
    DragSession<H, V, I>,
))
    requires
        request.each_item_provided(),
    ensures
        are_item_requests(request.configuration.items@, request.providers@, res.0@),
        res.1@ == request.providers@.remove_keys(taken_by(request.configuration.items@)),
        is_session_of(request, res.2),
{
    broadcast use vstd::std_specs::hash::group_hash_axioms;

    let ghost items = request.configuration.items@;
    let ghost all = request.providers@;
    let configuration = request.configuration;
    let session_id = request.session_id;
    let mut left = request.providers;
    let mut made: Vec<ItemRequest<P, H, I>> = Vec::new();
    let mut data_provider_handles: Vec<H> = Vec::new();
    let mut i: usize = 0;
    while i < configuration.items.len()
        invariant
            i <= configuration.items.len(),
            items == configuration.items@,
            each_item_provided(items, all),
            left@ == all.remove_keys(taken_by(items.take(i as int))),
            made.len() == i,
            forall|k: int|
                0 <= k < i ==> is_item_request(
                    items[k],
                    all[items[k].data_provider_id],
                    #[trigger] made@[k],
                ),
            data_provider_handles@ == handles_of(items, all).take(i as int),
        decreases configuration.items.len() - i,
    {
        let item = &configuration.items[i];
        let id = item.data_provider_id;
        assert(id == items[i as int].data_provider_id);
        assert(!taken_by(items.take(i as int)).contains(id)) by {
            let ids = items.take(i as int).map_values(
                |item: DragItem<V, I>| item.data_provider_id,
            );
            if ids.contains(id) {
                let k = choose|k: int| 0 <= k < ids.len() && ids[k] == id;
                assert(items[k].data_provider_id == items[i as int].data_provider_id);
            }
        }
        let entry = left.remove(&id).unwrap();
        made.push(
            ItemRequest {
                provider: entry.provider,
                handle: entry.handle.clone(),
                flags: (false, true),
                image: item.image.clone(),
            },
        );
        data_provider_handles.push(entry.handle);
        proof {
            lemma_taken_by_one_more(items, i as int);
            assert(left@ =~= all.remove_keys(taken_by(items.take(i + 1))));
            assert(data_provider_handles@ =~= handles_of(items, all).take(i + 1));
        }
        i = i + 1;
    }
    assert(items.take(i as int) =~= items);
    assert(data_provider_handles@ =~= handles_of(items, all));
    (made, left, DragSession { session_id, configuration, data_provider_handles })
}

/// One more item takes one more provider.
proof fn lemma_taken_by_one_more<V, I>(items: Seq<DragItem<V, I>>, i: int)
    requires
        0 <= i < items.len(),
    ensures
        taken_by(items.take(i + 1)) == taken_by(items.take(i)).insert(items[i].data_provider_id),
{
    let id_of = |item: DragItem<V, I>| item.data_provider_id;
    let fewer = items.take(i).map_values(id_of);
    let more = items.take(i + 1).map_values(id_of);
    assert(more =~= fewer.push(items[i].data_provider_id));
    assert forall|id: DataProviderId| more.contains(id) <==> fewer.contains(id) || id
        == items[i].data_provider_id by {
        if fewer.contains(id) {
            let k = choose|k: int| 0 <= k < fewer.len() && fewer[k] == id;
            assert(more[k] == id);
        }
        assert(more[i] == items[i].data_provider_id);
    }
    assert(more.to_set() =~= fewer.to_set().insert(items[i].data_provider_id));
}

impl<E, H, V, I> PlatformDragContext<E, H, V, I> {
    /// Starts a drag: the first thing to do is to let go of the mouse button.
    pub fn start_drag<P>(
        &self,
        request: DragRequest<V, I>,
        providers: HashMap<DataProviderId, DataProviderEntry<P, H>>,
        session_id: DragSessionId,
    ) -> (res: DragStart<P, H, V, I>)
        ensures
            res.stage() == StartStage::ReleaseMouse(
                MouseUpStep::FinishMomentum,
                StartRequest { configuration: request.configuration, providers, session_id },
            ),
    {
        DragStart {
            stage: StartStage::ReleaseMouse(
                MouseUpStep::FinishMomentum,
                StartRequest { configuration: request.configuration, providers, session_id },
            ),
        }
    }
}

impl<E, H: Clone, V, I: Clone> PlatformDragContext<E, H, V, I> {
    /// The next step of the start of a drag.
    ///
    /// What a step does may change the source, so each step is worked out when the one before it is
    /// done.
    pub fn continue_start<P>(&self, start: DragStart<P, H, V, I>, has_window: bool) -> (res:
        StartStep<'_, E, P, H, V, I>)
        requires
            start.can_continue(),
        ensures
            is_step(self@, start.stage(), has_window, res),
    {
        match start.stage {
            StartStage::ReleaseMouse(step, request) => {
                let (event, next) = self.synthesize_mouse_up_event(step, has_window);
                let stage = match next {
                    Some(next) => StartStage::ReleaseMouse(next, request),
                    None => StartStage::MakeItems(request),
                };
                StartStep::SendEvent { event, next: DragStart { stage } }
            },
            StartStage::MakeItems(request) => {
                let (items, surplus, session) = make_items(request);
                StartStep::MakeItems {
                    items,
                    surplus,
                    next: DragStart { stage: StartStage::OpenSession(session) },
                }
            },
            StartStage::OpenSession(session) => match self.begin_dragging(&session) {
                Ok(actions) => StartStep::OpenSession { actions, session },
                Err(error) => StartStep::Failed { error, session },
            },
        }
    }
}

} // verus!
