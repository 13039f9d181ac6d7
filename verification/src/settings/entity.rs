use vstd::prelude::*;
use crate::settings::collection_settings::{
    drafts_storable,
    stored_collection,
    CollectionSettings,
    StoredCollectionModel,
};
use crate::settings::request_settings::{stored_request, RequestSettings, StoredRequestModel};
use crate::settings::request_setup_settings::setup_storable;
use crate::states::main_page::entity::{Entity as StateEntity, EntityModel};

verus! {

/// An entity of the tree as it is stored.
#[derive(Debug)]
pub enum Entity {
    COLLECTION(CollectionSettings),
    REQUEST(RequestSettings),
}

/// A stored entity as a value.
pub enum StoredEntityModel {
    COLLECTION(StoredCollectionModel),
    REQUEST(StoredRequestModel),
}

impl View for Entity {
    type V = StoredEntityModel;

    open spec fn view(&self) -> StoredEntityModel {
        match *self {
            Entity::COLLECTION(collection) => StoredEntityModel::COLLECTION(collection@),
            Entity::REQUEST(request) => StoredEntityModel::REQUEST(request@),
        }
    }
}

impl DeepView for Entity {
    type V = StoredEntityModel;

    open spec fn deep_view(&self) -> StoredEntityModel {
        self@
    }
}

/// True where an entity can be stored as the user has edited it.
pub open spec fn draft_storable(entity: EntityModel) -> bool {
    match entity {
        EntityModel::COLLECTION(collection) => drafts_storable(collection.requests),
        EntityModel::REQUEST(request) => setup_storable(request.draft.setup),
    }
}

/// True where an entity can be stored as it was last saved. The requests
/// of a collection are stored as the user has edited them.
pub open spec fn original_storable(entity: EntityModel) -> bool {
    match entity {
        EntityModel::COLLECTION(collection) => drafts_storable(collection.requests),
        EntityModel::REQUEST(request) => setup_storable(request.original.setup),
    }
}

/// What is stored of an entity as the user has edited it.
pub open spec fn stored_draft(entity: EntityModel) -> StoredEntityModel {
    match entity {
        EntityModel::COLLECTION(collection) => StoredEntityModel::COLLECTION(
            stored_collection(collection.id, collection.draft, collection.requests),
        ),
        EntityModel::REQUEST(request) => StoredEntityModel::REQUEST(
            stored_request(request.id, request.draft),
        ),
    }
}

/// What is stored of an entity as it was last saved.
pub open spec fn stored_original(entity: EntityModel) -> StoredEntityModel {
    match entity {
        EntityModel::COLLECTION(collection) => StoredEntityModel::COLLECTION(
            stored_collection(collection.id, collection.original, collection.requests),
        ),
        EntityModel::REQUEST(request) => StoredEntityModel::REQUEST(
            stored_request(request.id, request.original),
        ),
    }
}

impl Entity {
    /// What is stored of an entity as the user has edited it.
    pub fn from(value: &StateEntity) -> (r: Self)
        requires
            draft_storable(value@),
        ensures
            r@ == stored_draft(value@),
    {
        match value {
            StateEntity::COLLECTION(collection) => Entity::COLLECTION(
                CollectionSettings::from(collection),
            ),
            StateEntity::REQUEST(request) => Entity::REQUEST(RequestSettings::from(request)),
        }
    }

    /// What is stored of an entity as it was last saved.
    pub fn from_original(value: &StateEntity) -> (r: Self)
        requires
            original_storable(value@),
        ensures
            r@ == stored_original(value@),
    {
        match value {
            StateEntity::COLLECTION(collection) => Entity::COLLECTION(
                CollectionSettings::from_original(collection),
            ),
            StateEntity::REQUEST(request) => Entity::REQUEST(
                RequestSettings::from_original(request),
            ),
        }
    }
}

} // verus!
