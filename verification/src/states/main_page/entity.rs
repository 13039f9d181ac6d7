use vstd::prelude::*;
use crate::settings::entity::{Entity as SettingsEntity, StoredEntityModel};
use crate::states::main_page::collection::{loaded_collection, Collection, CollectionModel};
use crate::states::main_page::request::{loaded_request, Request, RequestModel};

verus! {

/// What can stand at the root of the tree: a collection, which holds
/// requests, or a request.
#[derive(Debug)]
pub enum Entity {
    COLLECTION(Collection),
    REQUEST(Request),
}

/// An entity as a value.
pub enum EntityModel {
    COLLECTION(CollectionModel),
    REQUEST(RequestModel),
}

impl View for Entity {
    type V = EntityModel;

    open spec fn view(&self) -> EntityModel {
        match *self {
            Entity::COLLECTION(collection) => EntityModel::COLLECTION(collection@),
            Entity::REQUEST(request) => EntityModel::REQUEST(request@),
        }
    }
}

impl DeepView for Entity {
    type V = EntityModel;

    open spec fn deep_view(&self) -> EntityModel {
        self@
    }
}

/// A stored entity as it stands in the tree after loading.
pub open spec fn loaded_entity(stored: StoredEntityModel) -> EntityModel {
    match stored {
        StoredEntityModel::COLLECTION(collection) => EntityModel::COLLECTION(
            loaded_collection(collection),
        ),
        StoredEntityModel::REQUEST(request) => EntityModel::REQUEST(loaded_request(request)),
    }
}

impl Entity {
    /// Makes the entity of the tree of a stored one.
    pub fn from(value: &SettingsEntity) -> (r: Self)
        ensures
            r@ == loaded_entity(value@),
    {
        match value {
            SettingsEntity::COLLECTION(collection_settings) => Entity::COLLECTION(
                Collection::from(collection_settings),
            ),
            SettingsEntity::REQUEST(request_settings) => Entity::REQUEST(
                Request::from(request_settings),
            ),
        }
    }

    /// True for a collection.
    pub fn is_collection(&self) -> (r: bool)
        ensures
            r == (self@ is COLLECTION),
    {
        match &self {
            Entity::COLLECTION(_) => true,
            Entity::REQUEST(_) => false,
        }
    }

    /// True for a request.
    pub fn is_request(&self) -> (r: bool)
        ensures
            r == (self@ is REQUEST),
    {
        match &self {
            Entity::COLLECTION(_) => false,
            Entity::REQUEST(_) => true,
        }
    }
}

} // verus!
