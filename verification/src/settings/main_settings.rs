use vstd::prelude::*;
use crate::settings::entity::{
    draft_storable,
    original_storable,
    stored_draft,
    stored_original,
    Entity,
    StoredEntityModel,
};
use crate::states::main_page::entity::EntityModel;
use crate::states::main_page::MainPage;

verus! {

/// What is stored of the main page: its tree.
#[derive(Debug)]
pub struct MainPageSettings {
    pub entities: Vec<Entity>,
}

impl View for MainPageSettings {
    type V = Seq<StoredEntityModel>;

    open spec fn view(&self) -> Seq<StoredEntityModel> {
        self.entities.deep_view()
    }
}

/// True where every entity of a tree can be stored as the user has edited
/// it.
pub open spec fn tree_storable(entities: Seq<EntityModel>) -> bool {
    forall|i: int| 0 <= i < entities.len() ==> draft_storable(#[trigger] entities[i])
}

/// True where every entity of a tree can be stored as it was last saved.
pub open spec fn tree_storable_original(entities: Seq<EntityModel>) -> bool {
    forall|i: int| 0 <= i < entities.len() ==> original_storable(#[trigger] entities[i])
}

impl MainPageSettings {
    /// What is stored of a first start: an empty tree.
    pub fn default() -> (r: Self)
        ensures
            r@ == Seq::<StoredEntityModel>::empty(),
    {
        let r = MainPageSettings { entities: Vec::new() };
        assert(r.entities.deep_view() =~= Seq::<StoredEntityModel>::empty());
        r
    }

    /// What is stored of the main page as the user has edited it.
    pub fn from(value: &MainPage) -> (r: Self)
        requires
            tree_storable(value@.entities),
        ensures
            r@ == value@.entities.map_values(|entity: EntityModel| stored_draft(entity)),
    {
        let mut entities: Vec<Entity> = Vec::new();
        let mut i: usize = 0;
        while i < value.entities.len()
            invariant
                i <= value.entities.len(),
                tree_storable(value@.entities),
                entities@.len() == i,
                forall|k: int| 0 <= k < i ==> entities@[k]@ == stored_draft(value.entities@[k]@),
            decreases value.entities.len() - i,
        {
            assert(value@.entities[i as int] == value.entities@[i as int]@);
            entities.push(Entity::from(&value.entities[i]));
            i += 1;
        }
        assert(entities.deep_view() =~= value@.entities.map_values(
            |entity: EntityModel| stored_draft(entity),
        ));
        MainPageSettings { entities }
    }

    /// What is stored of the main page as it was last saved.
    pub fn from_original(value: &MainPage) -> (r: Self)
        requires
            tree_storable_original(value@.entities),
        ensures
            r@ == value@.entities.map_values(|entity: EntityModel| stored_original(entity)),
    {
        let mut entities: Vec<Entity> = Vec::new();
        let mut i: usize = 0;
        while i < value.entities.len()
            invariant
                i <= value.entities.len(),
                tree_storable_original(value@.entities),
                entities@.len() == i,
                forall|k: int| 0 <= k < i ==> entities@[k]@ == stored_original(value.entities@[k]@),
            decreases value.entities.len() - i,
        {
            assert(value@.entities[i as int] == value.entities@[i as int]@);
            entities.push(Entity::from_original(&value.entities[i]));
            i += 1;
        }
        assert(entities.deep_view() =~= value@.entities.map_values(
            |entity: EntityModel| stored_original(entity),
        ));
        MainPageSettings { entities }
    }
}

} // verus!
