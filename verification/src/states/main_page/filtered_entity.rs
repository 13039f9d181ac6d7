use vstd::prelude::*;
use crate::states::main_page::entity::{Entity, EntityModel};

verus! {

/// An entry of the filtered tree: a collection with the requests of it that
/// pass the filter, or a request at the root. Entries hold indexes into the
/// tree, not the entities themselves.
#[derive(Debug)]
pub enum FilteredEntity {
    COLLECTION { collection_idx: usize, request_idxs: Vec<usize> },
    REQUEST { request_idx: usize },
}

/// An entry of the filtered tree as a value.
pub enum FilteredEntityModel {
    COLLECTION { collection_idx: usize, request_idxs: Seq<usize> },
    REQUEST { request_idx: usize },
}

impl View for FilteredEntity {
    type V = FilteredEntityModel;

    open spec fn view(&self) -> FilteredEntityModel {
        match *self {
            FilteredEntity::COLLECTION { collection_idx, request_idxs } => {
                FilteredEntityModel::COLLECTION { collection_idx, request_idxs: request_idxs@ }
            },
            FilteredEntity::REQUEST { request_idx } => FilteredEntityModel::REQUEST { request_idx },
        }
    }
}

impl DeepView for FilteredEntity {
    type V = FilteredEntityModel;

    open spec fn deep_view(&self) -> FilteredEntityModel {
        self@
    }
}

/// An entry with one more request, if it is a collection; a request entry
/// stays as it is.
pub open spec fn entry_with_request(entry: FilteredEntityModel, index: usize) -> FilteredEntityModel {
    match entry {
        FilteredEntityModel::COLLECTION { collection_idx, request_idxs } => {
            FilteredEntityModel::COLLECTION { collection_idx, request_idxs: request_idxs.push(index) }
        },
        FilteredEntityModel::REQUEST { request_idx } => entry,
    }
}

/// The index of an entry at the root of the tree.
pub open spec fn root_idx(entry: FilteredEntityModel) -> usize {
    match entry {
        FilteredEntityModel::COLLECTION { collection_idx, request_idxs } => collection_idx,
        FilteredEntityModel::REQUEST { request_idx } => request_idx,
    }
}

impl Clone for FilteredEntity {
    fn clone(&self) -> (r: Self)
        ensures
            r@ == self@,
    {
        match self {
            FilteredEntity::COLLECTION { collection_idx, request_idxs } => {
                FilteredEntity::COLLECTION {
                    collection_idx: *collection_idx,
                    request_idxs: request_idxs.clone(),
                }
            },
            FilteredEntity::REQUEST { request_idx } => FilteredEntity::REQUEST {
                request_idx: *request_idx,
            },
        }
    }
}

impl FilteredEntity {
    /// The entry of a collection, with no request yet.
    pub fn collection(index: usize) -> (r: Self)
        ensures
            r@ == (FilteredEntityModel::COLLECTION {
                collection_idx: index,
                request_idxs: Seq::empty(),
            }),
    {
        FilteredEntity::COLLECTION { collection_idx: index, request_idxs: Vec::new() }
    }

    /// Adds a request to the entry of a collection; the entry of a request
    /// stays as it is.
    pub fn push_request(&mut self, index: usize)
        ensures
            final(self)@ == entry_with_request(old(self)@, index),
    {
        match self {
            FilteredEntity::COLLECTION { collection_idx: _, request_idxs } => {
                request_idxs.push(index);
            },
            FilteredEntity::REQUEST { request_idx: _ } => {},
        }
    }

    /// The entry of a request at the root.
    pub fn request(index: usize) -> (r: Self)
        ensures
            r@ == (FilteredEntityModel::REQUEST { request_idx: index }),
    {
        FilteredEntity::REQUEST { request_idx: index }
    }
}

/// The filtered tree: what of the tree is on screen.
#[derive(Debug)]
pub struct FilteredEntities {
    pub items: Vec<FilteredEntity>,
}

impl View for FilteredEntities {
    type V = Seq<FilteredEntityModel>;

    open spec fn view(&self) -> Seq<FilteredEntityModel> {
        self.items.deep_view()
    }
}

/// The entries after a request is added. With a collection given, the
/// request joins the entry that stands at the collection's index in the
/// list, if that is a collection; where the list is shorter, a new entry
/// for the collection, holding the request, joins the end. Without one, an
/// entry for the request joins the end.
pub open spec fn entries_with_request(
    items: Seq<FilteredEntityModel>,
    request_index: usize,
    collection_idx: Option<usize>,
) -> Seq<FilteredEntityModel> {
    match collection_idx {
        Some(c_idx) => if c_idx < items.len() {
            items.update(c_idx as int, entry_with_request(items[c_idx as int], request_index))
        } else {
            items.push(
                FilteredEntityModel::COLLECTION {
                    collection_idx: c_idx,
                    request_idxs: seq![request_index],
                },
            )
        },
        None => items.push(FilteredEntityModel::REQUEST { request_idx: request_index }),
    }
}

/// The position of the first entry for the collection with the given index,
/// looking from `from` on; `None` where there is none.
pub open spec fn find_collection(items: Seq<FilteredEntityModel>, idx: usize, from: int) -> Option<
    int,
>
    decreases items.len() - from,
{
    if from < 0 || from >= items.len() {
        None
    } else if items[from] matches FilteredEntityModel::COLLECTION { collection_idx, request_idxs }
        && collection_idx == idx {
        Some(from)
    } else {
        find_collection(items, idx, from + 1)
    }
}

/// The requests of an entry; a request entry has none.
pub open spec fn entry_requests(entry: FilteredEntityModel) -> Seq<usize> {
    match entry {
        FilteredEntityModel::COLLECTION { collection_idx, request_idxs } => request_idxs,
        FilteredEntityModel::REQUEST { request_idx } => Seq::empty(),
    }
}

/// The indexes of so many requests, in their order: 0, 1, 2 and so on.
pub open spec fn all_requests(count: nat) -> Seq<usize> {
    Seq::new(count, |j: int| j as usize)
}

/// The whole tree as a filtered tree: every entity, and with every
/// collection all of its requests.
pub open spec fn everything(entities: Seq<EntityModel>) -> Seq<FilteredEntityModel> {
    Seq::new(
        entities.len(),
        |i: int|
            match entities[i] {
                EntityModel::COLLECTION(collection) => FilteredEntityModel::COLLECTION {
                    collection_idx: i as usize,
                    request_idxs: all_requests(collection.requests.len()),
                },
                EntityModel::REQUEST(_) => FilteredEntityModel::REQUEST { request_idx: i as usize },
            },
    )
}

impl Clone for FilteredEntities {
    fn clone(&self) -> (r: Self)
        ensures
            r@ == self@,
    {
        let mut items: Vec<FilteredEntity> = Vec::new();
        let mut i: usize = 0;
        while i < self.items.len()
            invariant
                i <= self.items.len(),
                items@.len() == i,
                forall|j: int| 0 <= j < i ==> items@[j]@ == self.items@[j]@,
            decreases self.items.len() - i,
        {
            items.push(self.items[i].clone());
            i += 1;
        }
        assert(items.deep_view() =~= self.items.deep_view());
        FilteredEntities { items }
    }
}

impl FilteredEntities {
    /// An empty list.
    pub fn new() -> (r: Self)
        ensures
            r@ == Seq::<FilteredEntityModel>::empty(),
    {
        let r = FilteredEntities { items: Vec::new() };
        assert(r.items.deep_view() =~= Seq::<FilteredEntityModel>::empty());
        r
    }

    /// The whole tree as a filtered tree.
    pub fn from(value: &Vec<Entity>) -> (r: Self)
        ensures
            r@ == everything(value.deep_view()),
    {
        let mut items: Vec<FilteredEntity> = Vec::new();
        let mut i: usize = 0;
        while i < value.len()
            invariant
                i <= value.len(),
                items@.len() == i,
                forall|k: int| 0 <= k < i ==> items@[k]@ == everything(value.deep_view())[k],
            decreases value.len() - i,
        {
            match &value[i] {
                Entity::COLLECTION(collection) => {
                    let mut request_idxs: Vec<usize> = Vec::new();
                    let mut j: usize = 0;
                    while j < collection.requests.len()
                        invariant
                            j <= collection.requests.len(),
                            request_idxs@.len() == j,
                            forall|k: int| 0 <= k < j ==> request_idxs@[k] == k as usize,
                        decreases collection.requests.len() - j,
                    {
                        request_idxs.push(j);
                        j += 1;
                    }
                    assert(request_idxs@ =~= all_requests(collection@.requests.len()));
                    items.push(FilteredEntity::COLLECTION { collection_idx: i, request_idxs });
                },
                Entity::REQUEST(_) => {
                    items.push(FilteredEntity::REQUEST { request_idx: i });
                },
            }
            i += 1;
        }
        assert(items.deep_view() =~= everything(value.deep_view()));
        FilteredEntities { items }
    }

    /// Adds the entry of a collection, with no request yet.
    pub fn push_collection(&mut self, index: usize)
        ensures
            final(self)@ == old(self)@.push(
                FilteredEntityModel::COLLECTION {
                    collection_idx: index,
                    request_idxs: Seq::empty(),
                },
            ),
    {
        let entry = FilteredEntity::collection(index);
        self.items.push(entry);
        assert(self.items.deep_view() =~= old(self).items.deep_view().push(entry@));
    }

    /// Adds a request, in a collection or at the root.
    pub fn push_request(&mut self, request_index: usize, collection_idx: Option<usize>)
        ensures
            final(self)@ == entries_with_request(old(self)@, request_index, collection_idx),
    {
        match collection_idx {
            Some(c_idx) => {
                if c_idx < self.items.len() {
                    let mut entry = FilteredEntity::request(0);
                    core::mem::swap(&mut self.items[c_idx], &mut entry);
                    entry.push_request(request_index);
                    self.items[c_idx] = entry;
                    assert(self.items.deep_view() =~= entries_with_request(
                        old(self)@,
                        request_index,
                        collection_idx,
                    ));
                } else {
                    let mut collection = FilteredEntity::collection(c_idx);
                    collection.push_request(request_index);
                    self.items.push(collection);
                    assert(self.items.deep_view() =~= old(self).items.deep_view().push(
                        collection@,
                    ));
                    assert(collection@ == (FilteredEntityModel::COLLECTION {
                        collection_idx: c_idx,
                        request_idxs: seq![request_index],
                    })) by {
                        assert(Seq::<usize>::empty().push(request_index) =~= seq![request_index]);
                    }
                }
            },
            None => {
                let entry = FilteredEntity::request(request_index);
                self.items.push(entry);
                assert(self.items.deep_view() =~= old(self).items.deep_view().push(entry@));
            },
        }
    }

    /// The indexes of the entries at the root of the tree, in their order.
    pub fn root_entities_idxs(&self) -> (r: Vec<usize>)
        ensures
            r@ == self@.map_values(|entry: FilteredEntityModel| root_idx(entry)),
    {
        let mut out: Vec<usize> = Vec::new();
        let mut i: usize = 0;
        while i < self.items.len()
            invariant
                i <= self.items.len(),
                out@.len() == i,
                forall|j: int| 0 <= j < i ==> out@[j] == root_idx(self.items@[j]@),
            decreases self.items.len() - i,
        {
            let idx = match &self.items[i] {
                FilteredEntity::COLLECTION { collection_idx, request_idxs: _ } => *collection_idx,
                FilteredEntity::REQUEST { request_idx } => *request_idx,
            };
            out.push(idx);
            i += 1;
        }
        assert(out@ =~= self@.map_values(|entry: FilteredEntityModel| root_idx(entry)));
        out
    }

    /// The requests on screen of the collection with the given index: those
    /// of the first entry for that collection. `None` where the collection
    /// has no entry.
    pub fn collection_requests_idxs(&self, requested_collection_idx: usize) -> (r: Option<
        Vec<usize>,
    >)
        ensures
            match find_collection(self@, requested_collection_idx, 0) {
                Some(at) => r matches Some(idxs) && idxs@ == entry_requests(self@[at]),
                None => r is None,
            },
    {
        let mut i: usize = 0;
        while i < self.items.len()
            invariant
                i <= self.items.len(),
                find_collection(self@, requested_collection_idx, 0) == find_collection(
                    self@,
                    requested_collection_idx,
                    i as int,
                ),
            decreases self.items.len() - i,
        {
            match &self.items[i] {
                FilteredEntity::COLLECTION { collection_idx, request_idxs } => {
                    if *collection_idx == requested_collection_idx {
                        let found = request_idxs.clone();
                        assert(found@ == request_idxs@);
                        return Some(found);
                    }
                },
                FilteredEntity::REQUEST { request_idx: _ } => {},
            }
            i += 1;
        }
        None
    }
}

} // verus!
