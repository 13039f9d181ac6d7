use vstd::prelude::*;
use crate::settings::request_settings::{stored_request, RequestSettings, StoredRequestModel};
use crate::settings::request_setup_settings::setup_storable;
use crate::states::main_page::collection::{Collection as StateCollection, CollectionDataModel};
use crate::states::main_page::request::RequestModel;

verus! {

/// A collection as it is stored.
#[derive(Debug)]
pub struct CollectionSettings {
    pub id: String,
    pub name: String,
    pub description: String,
    pub requests: Vec<RequestSettings>,
}

/// A stored collection as a value.
pub struct StoredCollectionModel {
    pub id: Seq<char>,
    pub name: Seq<char>,
    pub description: Seq<char>,
    pub requests: Seq<StoredRequestModel>,
}

impl View for CollectionSettings {
    type V = StoredCollectionModel;

    open spec fn view(&self) -> StoredCollectionModel {
        StoredCollectionModel {
            id: self.id@,
            name: self.name@,
            description: self.description@,
            requests: self.requests.deep_view(),
        }
    }
}

/// True where every request of a list can be stored as the user has
/// edited it.
pub open spec fn drafts_storable(requests: Seq<RequestModel>) -> bool {
    forall|i: int| 0 <= i < requests.len() ==> setup_storable((#[trigger] requests[i]).draft.setup)
}

/// The stored forms of the requests of a list, as the user has edited
/// them.
pub open spec fn stored_drafts(requests: Seq<RequestModel>) -> Seq<StoredRequestModel> {
    requests.map_values(|request: RequestModel| stored_request(request.id, request.draft))
}

/// What is stored of a collection with the given identifier, data and
/// requests. The requests are stored as the user has edited them.
pub open spec fn stored_collection(
    id: Seq<char>,
    data: CollectionDataModel,
    requests: Seq<RequestModel>,
) -> StoredCollectionModel {
    StoredCollectionModel {
        id,
        name: data.name,
        description: data.description,
        requests: stored_drafts(requests),
    }
}

/// Makes the stored forms of the requests of a collection.
fn store_requests(value: &StateCollection) -> (r: Vec<RequestSettings>)
    requires
        drafts_storable(value@.requests),
    ensures
        r.deep_view() == stored_drafts(value@.requests),
{
    let mut requests: Vec<RequestSettings> = Vec::new();
    let mut i: usize = 0;
    while i < value.requests.len()
        invariant
            i <= value.requests.len(),
            drafts_storable(value@.requests),
            requests@.len() == i,
            forall|k: int|
                0 <= k < i ==> requests@[k]@ == stored_request(
                    value.requests@[k]@.id,
                    value.requests@[k]@.draft,
                ),
        decreases value.requests.len() - i,
    {
        assert(value@.requests[i as int] == value.requests@[i as int]@);
        requests.push(RequestSettings::from(&value.requests[i]));
        i += 1;
    }
    assert(requests.deep_view() =~= stored_drafts(value@.requests));
    requests
}

impl CollectionSettings {
    /// What is stored of a collection as the user has edited it.
    pub fn from(value: &StateCollection) -> (r: Self)
        requires
            drafts_storable(value@.requests),
        ensures
            r@ == stored_collection(value@.id, value@.draft, value@.requests),
    {
        CollectionSettings {
            id: value.id.clone(),
            name: value.draft.name.clone(),
            description: value.draft.description.clone(),
            requests: store_requests(value),
        }
    }

    /// What is stored of a collection as it was last saved; its requests
    /// are stored as the user has edited them.
    pub fn from_original(value: &StateCollection) -> (r: Self)
        requires
            drafts_storable(value@.requests),
        ensures
            r@ == stored_collection(value@.id, value@.original, value@.requests),
    {
        CollectionSettings {
            id: value.id.clone(),
            name: value.original.name.clone(),
            description: value.original.description.clone(),
            requests: store_requests(value),
        }
    }
}

} // verus!
