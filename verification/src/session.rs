//! Drags that are being set up and drags that are under way.
use crate::operation::NSDragOperation;
use std::collections::HashMap;
use vstd::prelude::*;

verus! {

/// Names a drag session towards the application.
#[derive(Clone, Copy, Debug, PartialEq, Eq, Structural)]
pub struct DragSessionId(pub i64);

/// Names a data provider.
pub type DataProviderId = i64;

/// One dragged item.
#[derive(Debug)]
pub struct DragItem<V, I> {
    /// The provider of the item's data.
    pub data_provider_id: DataProviderId,
    /// The image that follows the pointer, and where it starts from.
    pub image: I,
    /// A value that only drop sites in the same application see.
    pub local_data: V,
}

/// What is dragged, and how.
#[derive(Debug)]
pub struct DragConfiguration<V, I> {
    /// The dragged items.
    pub items: Vec<DragItem<V, I>>,
    /// The mask of each operation that a drop site may choose from.
    pub allowed_operations: Vec<NSDragOperation>,
    /// Whether the drag image slides back if nothing is dropped.
    pub animates_to_starting_position_on_cancel_or_fail: bool,
}

/// The application's request for a drag.
#[derive(Debug)]
pub struct DragRequest<V, I> {
    /// What to drag.
    pub configuration: DragConfiguration<V, I>,
}

/// A data provider, and the handle that keeps its data available.
#[derive(Debug)]
pub struct DataProviderEntry<P, H> {
    /// The provider.
    pub provider: P,
    /// The handle.
    pub handle: H,
}

/// A drag that is under way.
#[derive(Debug)]
pub struct DragSession<H, V, I> {
    /// The name that the application knows the drag by.
    pub session_id: DragSessionId,
    /// What is dragged.
    pub configuration: DragConfiguration<V, I>,
    /// The handle of each item's data provider. They are held so that the data stays available.
    pub data_provider_handles: Vec<H>,
}

/// `data` is a clone of the local data of `items`, item by item.
pub open spec fn is_local_data<V: Clone, I>(items: Seq<DragItem<V, I>>, data: Seq<V>) -> bool {
    &&& data.len() == items.len()
    &&& forall|i: int|
        0 <= i < items.len() ==> cloned(items[i].local_data, #[trigger] data[i])
}

impl<V: Clone, I> DragConfiguration<V, I> {
    /// The local data of each item, in the order of the items.
    pub fn get_local_data(&self) -> (res: Vec<V>)
        ensures
            is_local_data(self.items@, res@),
    {
        let mut res: Vec<V> = Vec::new();
        let mut i: usize = 0;
        while i < self.items.len()
            invariant
                i <= self.items.len(),
                res.len() == i,
                forall|j: int|
                    0 <= j < i ==> cloned(self.items@[j].local_data, #[trigger] res@[j]),
            decreases self.items.len() - i,
        {
            res.push(self.items[i].local_data.clone());
            i = i + 1;
        }
        res
    }
}

/// Each item has a data provider of its own.
pub open spec fn each_item_provided<P, H, V, I>(
    items: Seq<DragItem<V, I>>,
    providers: Map<DataProviderId, DataProviderEntry<P, H>>,
) -> bool {
    &&& forall|i: int|
        0 <= i < items.len() ==> providers.contains_key(#[trigger] items[i].data_provider_id)
    &&& forall|i: int, j: int|
        0 <= i < j < items.len() ==> #[trigger] items[i].data_provider_id
            != #[trigger] items[j].data_provider_id
}

/// The handle of each item's data provider.
pub open spec fn handles_of<P, H, V, I>(
    items: Seq<DragItem<V, I>>,
    providers: Map<DataProviderId, DataProviderEntry<P, H>>,
) -> Seq<H> {
    items.map_values(|item: DragItem<V, I>| providers[item.data_provider_id].handle)
}

/// Whether each item has a data provider of its own.
pub fn has_providers<P, H, V, I>(
    configuration: &DragConfiguration<V, I>,
    providers: &HashMap<DataProviderId, DataProviderEntry<P, H>>,
) -> (res: bool)
    ensures
        res == each_item_provided(configuration.items@, providers@),
{
    broadcast use vstd::std_specs::hash::group_hash_axioms;

    let mut i: usize = 0;
    while i < configuration.items.len()
        invariant
            i <= configuration.items.len(),
            forall|k: int|
                0 <= k < i ==> providers@.contains_key(
                    #[trigger] configuration.items@[k].data_provider_id,
                ),
            forall|k: int, l: int|
                0 <= k < l < i ==> #[trigger] configuration.items@[k].data_provider_id
                    != #[trigger] configuration.items@[l].data_provider_id,
        decreases configuration.items.len() - i,
    {
        let id = configuration.items[i].data_provider_id;
        if !providers.contains_key(&id) {
            assert(!providers@.contains_key(configuration.items@[i as int].data_provider_id));
            return false;
        }
        let mut j: usize = 0;
        while j < i
            invariant
                j <= i < configuration.items.len(),
                id == configuration.items@[i as int].data_provider_id,
                forall|k: int|
                    0 <= k < j ==> #[trigger] configuration.items@[k].data_provider_id != id,
            decreases i - j,
        {
            if configuration.items[j].data_provider_id == id {
                assert(configuration.items@[j as int].data_provider_id
                    == configuration.items@[i as int].data_provider_id);
                return false;
            }
            j = j + 1;
        }
        i = i + 1;
    }
    true
}

/// The local data of a drag is one clone for each item, in the order of the items.
pub proof fn law_local_data_is_cloned_item_by_item<V: Clone, I>(
    configuration: &DragConfiguration<V, I>,
    res: Vec<V>,
)
    requires
        call_ensures(DragConfiguration::<V, I>::get_local_data, (configuration,), res),
    ensures
        res@.len() == configuration.items@.len(),
        forall|k: int|
            0 <= k < res@.len() ==> cloned(
                configuration.items@[k].local_data,
                #[trigger] res@[k],
            ),
{
}

/// The providers suffice exactly if there is one for each item and no two items need the same one.
pub proof fn law_providers_suffice_if_each_item_has_its_own<P, H, V, I>(
    configuration: &DragConfiguration<V, I>,
    providers: &HashMap<DataProviderId, DataProviderEntry<P, H>>,
    res: bool,
)
    requires
        call_ensures(has_providers::<P, H, V, I>, (configuration, providers), res),
    ensures
        res <==> {
            &&& forall|k: int|
                0 <= k < configuration.items@.len() ==> providers@.contains_key(
                    #[trigger] configuration.items@[k].data_provider_id,
                )
            &&& forall|k: int, l: int|
                0 <= k < l < configuration.items@.len()
                    ==> #[trigger] configuration.items@[k].data_provider_id
                    != #[trigger] configuration.items@[l].data_provider_id
        },
{
}

} // verus!
