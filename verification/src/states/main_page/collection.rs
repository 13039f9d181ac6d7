use vstd::prelude::*;
use crate::ids;
use crate::ids::ID_LENGTH;
use crate::settings::collection_settings::{CollectionSettings, StoredCollectionModel};
use crate::settings::request_settings::StoredRequestModel;
use crate::states::main_page::request::{loaded_request, Request, RequestModel};
use crate::text::{chars_of, contains_lowercase, passes_filter, to_lowercase};

verus! {

/// What the user has written of a collection.
#[derive(Debug)]
pub struct CollectionData {
    pub name: String,
    pub description: String,
}

/// The data of a collection as a value.
pub struct CollectionDataModel {
    pub name: Seq<char>,
    pub description: Seq<char>,
}

impl View for CollectionData {
    type V = CollectionDataModel;

    open spec fn view(&self) -> CollectionDataModel {
        CollectionDataModel { name: self.name@, description: self.description@ }
    }
}

impl Clone for CollectionData {
    fn clone(&self) -> (r: Self)
        ensures
            r == *self,
    {
        CollectionData { name: self.name.clone(), description: self.description.clone() }
    }
}

impl CollectionData {
    /// Makes the data that the user edits of a stored collection.
    pub fn from(value: &CollectionSettings) -> (r: Self)
        ensures
            r@ == (CollectionDataModel { name: value@.name, description: value@.description }),
    {
        CollectionData { name: value.name.clone(), description: value.description.clone() }
    }

    /// The data of a collection that was just made, named "New Collection".
    pub fn default() -> (r: Self)
        ensures
            r@ == (CollectionDataModel { name: "New Collection"@, description: Seq::empty() }),
    {
        CollectionData { name: "New Collection".to_string(), description: String::new() }
    }

    /// Takes over what another collection data holds.
    pub fn copy_from_other(&mut self, other_collection: &Self)
        ensures
            final(self)@ == other_collection@,
    {
        self.name = other_collection.name.clone();
        self.description = other_collection.description.clone();
    }
}

/// A collection of the tree: what the user has written of it, what was
/// last saved of it, and its requests.
#[derive(Debug)]
pub struct Collection {
    /// The identifier of the collection.
    pub id: String,
    /// True where the draft was edited since it was last saved.
    pub is_changed: bool,
    /// The collection as it was last saved.
    pub original: CollectionData,
    /// The collection as the user edits it.
    pub draft: CollectionData,
    /// The requests of the collection, in their order.
    pub requests: Vec<Request>,
    /// True where the collection is shown without its requests.
    pub is_folded: bool,
}

/// A collection as a value.
pub struct CollectionModel {
    pub id: Seq<char>,
    pub is_changed: bool,
    pub original: CollectionDataModel,
    pub draft: CollectionDataModel,
    pub requests: Seq<RequestModel>,
    pub is_folded: bool,
}

impl View for Collection {
    type V = CollectionModel;

    open spec fn view(&self) -> CollectionModel {
        CollectionModel {
            id: self.id@,
            is_changed: self.is_changed,
            original: self.original@,
            draft: self.draft@,
            requests: self.requests.deep_view(),
            is_folded: self.is_folded,
        }
    }
}

/// A collection that was just made, with the given identifier: unchanged,
/// folded, without requests.
pub open spec fn new_collection(id: Seq<char>) -> CollectionModel {
    CollectionModel {
        id,
        is_changed: false,
        original: CollectionDataModel { name: "New Collection"@, description: Seq::empty() },
        draft: CollectionDataModel { name: "New Collection"@, description: Seq::empty() },
        requests: Seq::empty(),
        is_folded: true,
    }
}

/// A stored collection as it stands in the tree after loading: unchanged
/// and folded, with its requests loaded.
pub open spec fn loaded_collection(stored: StoredCollectionModel) -> CollectionModel {
    CollectionModel {
        id: stored.id,
        is_changed: false,
        original: CollectionDataModel { name: stored.name, description: stored.description },
        draft: CollectionDataModel { name: stored.name, description: stored.description },
        requests: stored.requests.map_values(|request: StoredRequestModel| loaded_request(request)),
        is_folded: true,
    }
}

/// True where a collection passes a filter: where the filter, in small
/// letters, stands in the name or the description of the draft, in small
/// letters.
pub open spec fn collection_passes(draft: CollectionDataModel, filter: Seq<char>) -> bool {
    passes_filter(draft.name, filter) || passes_filter(draft.description, filter)
}

/// What saving makes of a collection: a changed draft becomes the original.
pub open spec fn saved_collection(collection: CollectionModel) -> CollectionModel {
    if collection.is_changed {
        CollectionModel { is_changed: false, original: collection.draft, ..collection }
    } else {
        collection
    }
}

/// What giving up the changes makes of a collection: the original becomes
/// the draft again.
pub open spec fn reverted_collection(collection: CollectionModel) -> CollectionModel {
    CollectionModel { is_changed: false, draft: collection.original, ..collection }
}

impl Collection {
    /// Makes the collection of the tree of a stored one.
    pub fn from(value: &CollectionSettings) -> (r: Self)
        ensures
            r@ == loaded_collection(value@),
    {
        let mut requests: Vec<Request> = Vec::new();
        let mut i: usize = 0;
        while i < value.requests.len()
            invariant
                i <= value.requests.len(),
                requests@.len() == i,
                forall|k: int| 0 <= k < i ==> requests@[k]@ == loaded_request(value.requests@[k]@),
            decreases value.requests.len() - i,
        {
            requests.push(Request::from(&value.requests[i]));
            i += 1;
        }
        assert(requests.deep_view() =~= value@.requests.map_values(
            |request: StoredRequestModel| loaded_request(request),
        ));
        Collection {
            id: value.id.clone(),
            is_changed: false,
            original: CollectionData::from(value),
            draft: CollectionData::from(value),
            requests,
            is_folded: true,
        }
    }

    /// A collection that was just made, under a fresh identifier.
    pub fn default() -> (r: Self)
        ensures
            r@ == new_collection(r@.id),
            r@.id.len() == ID_LENGTH,
    {
        let r = Collection {
            id: ids::fresh_id(),
            is_changed: false,
            original: CollectionData::default(),
            draft: CollectionData::default(),
            requests: Vec::new(),
            is_folded: true,
        };
        assert(r.requests.deep_view() =~= Seq::<RequestModel>::empty());
        r
    }

    /// Saves the collection: a changed draft becomes the original. The
    /// requests are left as they are.
    pub fn on_save(&mut self)
        ensures
            final(self)@ == saved_collection(old(self)@),
            final(self).requests == old(self).requests,
    {
        if self.is_changed {
            self.is_changed = false;
            self.original.copy_from_other(&self.draft);
        }
    }

    /// True where the collection passes the filter.
    pub fn is_filtered(&self, filter: &String) -> (r: bool)
        ensures
            r == collection_passes(self@.draft, filter@),
    {
        let lowered = to_lowercase(filter.as_str());
        let needle = chars_of(lowered.as_str());
        contains_lowercase(self.draft.name.as_str(), &needle) || contains_lowercase(
            self.draft.description.as_str(),
            &needle,
        )
    }

    /// Gives up what was changed: the original becomes the draft again.
    pub fn cancel_changes(&mut self)
        ensures
            final(self)@ == reverted_collection(old(self)@),
            final(self).requests == old(self).requests,
    {
        self.draft.copy_from_other(&self.original);
        self.is_changed = false
    }
}

} // verus!
