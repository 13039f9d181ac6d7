//! The main page: the tree of requests and collections and what is selected
//! in it.

use vstd::prelude::*;
use crate::executor::State;
use crate::ids::ID_LENGTH;
use crate::settings::entity::StoredEntityModel;
use crate::settings::main_settings::MainPageSettings;
use crate::states::main_page::collection::{
    collection_passes,
    new_collection,
    reverted_collection,
    Collection,
    CollectionModel,
};
use crate::states::main_page::entity::{loaded_entity, Entity, EntityModel};
use crate::states::main_page::filtered_entity::{
    entries_with_request,
    everything,
    FilteredEntities,
    FilteredEntityModel,
};
use crate::states::main_page::request::{
    new_request,
    request_passes,
    reverted_request,
    Request,
    RequestModel,
};
use crate::states::main_page::selected_entity::SelectedEntity;
use crate::text::{decimal_text, usize_to_string};

pub mod collection;
pub mod entity;
pub mod filtered_entity;
pub mod generics;
pub mod request;
pub mod response;
pub mod selected_entity;

verus! {

/// The panels that can stand on the right.
#[derive(Clone, Copy, Debug, PartialEq, Eq, Structural)]
pub enum RightPanelType {
    EVENTS,
}

/// Whether a panel stands on the right, and which.
#[derive(Clone, Copy, Debug, PartialEq, Eq, Structural)]
pub struct RightPanel {
    pub is_visible: bool,
    pub panel_type: RightPanelType,
}

impl Default for RightPanel {
    fn default() -> (r: Self)
        ensures
            r == (RightPanel { is_visible: false, panel_type: RightPanelType::EVENTS }),
    {
        RightPanel { is_visible: false, panel_type: RightPanelType::EVENTS }
    }
}

impl RightPanel {
    /// Shows the panel if it is hidden, hides it if it is shown.
    pub fn toggle(&mut self)
        ensures
            final(self).is_visible == !old(self).is_visible,
            final(self).panel_type == old(self).panel_type,
    {
        self.is_visible = !self.is_visible;
    }

    /// Shows or hides the events. The events are the only panel, so this
    /// shows the panel if it is hidden and hides it if it is shown.
    pub fn toggle_events(&mut self)
        ensures
            final(self).is_visible == !old(self).is_visible,
            final(self).panel_type == RightPanelType::EVENTS,
    {
        match self.panel_type {
            RightPanelType::EVENTS => {
                self.is_visible = !self.is_visible;
            },
        }
    }
}

/// The moves of the selected request that are planned: each names the
/// collection to move to, or `None` for the root. They are carried out in
/// the order in which they were planned.
#[derive(Debug)]
pub struct RequestMoveTarget {
    target: Vec<Option<usize>>,
}

impl View for RequestMoveTarget {
    type V = Seq<Option<usize>>;

    closed spec fn view(&self) -> Seq<Option<usize>> {
        self.target@
    }
}

impl Clone for RequestMoveTarget {
    fn clone(&self) -> (r: Self)
        ensures
            r@ == self@,
    {
        let mut target: Vec<Option<usize>> = Vec::new();
        let mut i: usize = 0;
        while i < self.target.len()
            invariant
                i <= self.target.len(),
                target@ == self.target@.subrange(0, i as int),
            decreases self.target.len() - i,
        {
            target.push(self.target[i]);
            i += 1;
        }
        assert(target@ == self.target@);
        RequestMoveTarget { target }
    }
}

impl RequestMoveTarget {
    /// No move planned.
    pub fn new() -> (r: Self)
        ensures
            r@ == Seq::<Option<usize>>::empty(),
    {
        RequestMoveTarget { target: Vec::new() }
    }

    /// True where a move is planned.
    pub fn move_planned(&self) -> (r: bool)
        ensures
            r == (self@.len() > 0),
    {
        self.target.len() > 0
    }

    /// The move that was planned first, left where it is; `None` where no
    /// move is planned.
    pub fn peek(&self) -> (r: Option<Option<usize>>)
        ensures
            r == if self@.len() > 0 {
                Some(self@[0])
            } else {
                None
            },
    {
        if self.target.len() > 0 {
            Some(self.target[0])
        } else {
            None
        }
    }

    /// Takes the move that was planned first.
    pub fn take(&mut self) -> (r: Option<usize>)
        requires
            old(self)@.len() > 0,
        ensures
            r == old(self)@[0],
            final(self)@ == old(self)@.drop_first(),
    {
        let first = self.target.remove(0);
        assert(self.target@ =~= old(self).target@.drop_first());
        first
    }

    /// Plans a move, after those already planned.
    pub fn add(&mut self, target: Option<usize>)
        ensures
            final(self)@ == old(self)@.push(target),
    {
        self.target.push(target);
    }
}

/// The main page: the tree, what of it passes the filter, what is selected
/// in it, and what is about to happen to it.
#[derive(Debug)]
pub struct MainPage {
    /// The entities at the root of the tree, in their order.
    pub entities: Vec<Entity>,
    /// What of the tree passes the filter.
    pub filtered_entities: FilteredEntities,
    /// What is selected.
    pub selected_entity: SelectedEntity,
    /// What is to be deleted when the frame is over.
    pub deletion_entity: SelectedEntity,
    /// The filter as the user typed it.
    pub filter_text: String,
    /// Where the selected request is to be moved.
    pub request_move_target: RequestMoveTarget,
    /// The panel on the right.
    pub right_panel: RightPanel,
}

/// The main page as a value.
pub struct MainPageModel {
    pub entities: Seq<EntityModel>,
    pub filtered_entities: Seq<FilteredEntityModel>,
    pub selected_entity: SelectedEntity,
    pub deletion_entity: SelectedEntity,
    pub filter_text: Seq<char>,
    pub request_move_target: Seq<Option<usize>>,
    pub right_panel: RightPanel,
}

impl View for MainPage {
    type V = MainPageModel;

    open spec fn view(&self) -> MainPageModel {
        MainPageModel {
            entities: self.entities.deep_view(),
            filtered_entities: self.filtered_entities@,
            selected_entity: self.selected_entity,
            deletion_entity: self.deletion_entity,
            filter_text: self.filter_text@,
            request_move_target: self.request_move_target@,
            right_panel: self.right_panel,
        }
    }
}

/// True where a selection points into the tree: a collection index at an
/// entity, a request index at an entity or, under a collection, at one of
/// its requests.
pub open spec fn selection_in_range(entities: Seq<EntityModel>, selection: SelectedEntity) -> bool {
    match (selection.collection_idx, selection.request_idx) {
        (Some(c), Some(r)) => c < entities.len() && match entities[c as int] {
            EntityModel::COLLECTION(collection) => r < collection.requests.len(),
            EntityModel::REQUEST(_) => true,
        },
        (Some(c), None) => c < entities.len(),
        (None, Some(r)) => r < entities.len(),
        (None, None) => true,
    }
}

/// The collection that a selection names, if it names one.
pub open spec fn collection_at(entities: Seq<EntityModel>, selection: SelectedEntity) -> Option<
    CollectionModel,
> {
    match selection.collection_idx {
        Some(c) => match entities[c as int] {
            EntityModel::COLLECTION(collection) => Some(collection),
            EntityModel::REQUEST(_) => None,
        },
        None => None,
    }
}

/// The request that a selection names, if it names one.
pub open spec fn request_at(entities: Seq<EntityModel>, selection: SelectedEntity) -> Option<
    RequestModel,
> {
    match (selection.collection_idx, selection.request_idx) {
        (Some(c), Some(r)) => match entities[c as int] {
            EntityModel::COLLECTION(collection) => Some(collection.requests[r as int]),
            EntityModel::REQUEST(_) => None,
        },
        (None, Some(r)) => match entities[r as int] {
            EntityModel::COLLECTION(_) => None,
            EntityModel::REQUEST(request) => Some(request),
        },
        _ => None,
    }
}

/// The tree with the selected entity marked as changed: the request, where
/// one is selected, else the collection.
pub open spec fn marked_changed(entities: Seq<EntityModel>, selection: SelectedEntity) -> Seq<
    EntityModel,
> {
    match (selection.collection_idx, selection.request_idx) {
        (Some(c), Some(r)) => match entities[c as int] {
            EntityModel::COLLECTION(collection) => entities.update(
                c as int,
                EntityModel::COLLECTION(
                    CollectionModel {
                        requests: collection.requests.update(
                            r as int,
                            RequestModel { is_changed: true, ..collection.requests[r as int] },
                        ),
                        ..collection
                    },
                ),
            ),
            EntityModel::REQUEST(_) => entities,
        },
        (Some(c), None) => match entities[c as int] {
            EntityModel::COLLECTION(collection) => entities.update(
                c as int,
                EntityModel::COLLECTION(CollectionModel { is_changed: true, ..collection }),
            ),
            EntityModel::REQUEST(_) => entities,
        },
        (None, Some(r)) => match entities[r as int] {
            EntityModel::COLLECTION(_) => entities,
            EntityModel::REQUEST(request) => entities.update(
                r as int,
                EntityModel::REQUEST(RequestModel { is_changed: true, ..request }),
            ),
        },
        (None, None) => entities,
    }
}


/// True where a selection names an entity of its own kind: a collection
/// index names a collection, a request index names a request, at the root
/// or in the collection named.
pub open spec fn selection_valid(entities: Seq<EntityModel>, selection: SelectedEntity) -> bool {
    match (selection.collection_idx, selection.request_idx) {
        (Some(c), Some(r)) => c < entities.len() && match entities[c as int] {
            EntityModel::COLLECTION(collection) => r < collection.requests.len(),
            EntityModel::REQUEST(_) => false,
        },
        (Some(c), None) => c < entities.len() && entities[c as int] is COLLECTION,
        (None, Some(r)) => r < entities.len() && entities[r as int] is REQUEST,
        (None, None) => true,
    }
}

/// An index as it stands in a salt: the number, or `None`.
pub open spec fn index_text(index: Option<usize>) -> Seq<char> {
    match index {
        Some(i) => decimal_text(i as nat),
        None => "None"@,
    }
}

/// The filtered tree after the requests of one collection, up to `upto`,
/// were looked at: each one that passes the filter is added under the
/// collection.
pub open spec fn requests_filtered(
    items: Seq<FilteredEntityModel>,
    requests: Seq<RequestModel>,
    filter: Seq<char>,
    entity_idx: usize,
    upto: int,
) -> Seq<FilteredEntityModel>
    decreases upto,
{
    if upto <= 0 {
        items
    } else {
        let before = requests_filtered(items, requests, filter, entity_idx, upto - 1);
        if request_passes(requests[upto - 1].draft, filter) {
            entries_with_request(before, (upto - 1) as usize, Some(entity_idx))
        } else {
            before
        }
    }
}

/// The filtered tree after the entities up to `upto` were looked at. A
/// collection that passes the filter is added, and so is each of its
/// requests that passes; a request at the root that passes is added.
pub open spec fn entities_filtered(entities: Seq<EntityModel>, filter: Seq<char>, upto: int) -> Seq<
    FilteredEntityModel,
>
    decreases upto,
{
    if upto <= 0 {
        Seq::empty()
    } else {
        let before = entities_filtered(entities, filter, upto - 1);
        let idx = (upto - 1) as usize;
        match entities[upto - 1] {
            EntityModel::COLLECTION(collection) => {
                let with_collection = if collection_passes(collection.draft, filter) {
                    before.push(
                        FilteredEntityModel::COLLECTION {
                            collection_idx: idx,
                            request_idxs: Seq::empty(),
                        },
                    )
                } else {
                    before
                };
                requests_filtered(
                    with_collection,
                    collection.requests,
                    filter,
                    idx,
                    collection.requests.len() as int,
                )
            },
            EntityModel::REQUEST(request) => if request_passes(request.draft, filter) {
                entries_with_request(before, idx, None)
            } else {
                before
            },
        }
    }
}

/// What of a tree passes a filter. The empty filter lets everything pass.
pub open spec fn filtered_tree(entities: Seq<EntityModel>, filter: Seq<char>) -> Seq<
    FilteredEntityModel,
> {
    if filter.len() == 0 {
        everything(entities)
    } else {
        entities_filtered(entities, filter, entities.len() as int)
    }
}

/// A page with its filter dropped: the filter is empty and the whole tree
/// passes.
pub open spec fn unfiltered(page: MainPageModel) -> MainPageModel {
    MainPageModel {
        filter_text: Seq::empty(),
        filtered_entities: everything(page.entities),
        ..page
    }
}

/// Where a new collection goes: right after the selected collection, or
/// to the end where a request or nothing is selected.
pub open spec fn new_collection_position(page: MainPageModel) -> usize {
    match page.selected_entity.collection_idx {
        Some(idx) => if page.selected_entity.request_idx is Some {
            page.entities.len() as usize
        } else {
            (idx + 1) as usize
        },
        None => page.entities.len() as usize,
    }
}

/// Where a new request goes: right after the selected request, to the end
/// of the selected collection, or to the end of the root where nothing is
/// selected. Where the selection names a request as a collection, the new
/// request goes right after that one.
pub open spec fn new_request_position(page: MainPageModel) -> (Option<usize>, usize) {
    let selection = page.selected_entity;
    match (selection.collection_idx, selection.request_idx) {
        (Some(c), Some(r)) => match page.entities[c as int] {
            EntityModel::COLLECTION(_) => (Some(c), (r + 1) as usize),
            EntityModel::REQUEST(_) => (None, (c + 1) as usize),
        },
        (Some(c), None) => match page.entities[c as int] {
            EntityModel::COLLECTION(collection) => (Some(c), collection.requests.len() as usize),
            EntityModel::REQUEST(_) => (None, (c + 1) as usize),
        },
        (None, Some(r)) => (None, (r + 1) as usize),
        (None, None) => (None, page.entities.len() as usize),
    }
}

/// The tree with a request put at a position: at the root, or in the
/// collection named.
pub open spec fn with_request_at(
    entities: Seq<EntityModel>,
    position: (Option<usize>, usize),
    request: RequestModel,
) -> Seq<EntityModel> {
    match position.0 {
        Some(c) => match entities[c as int] {
            EntityModel::COLLECTION(collection) => entities.update(
                c as int,
                EntityModel::COLLECTION(
                    CollectionModel {
                        requests: collection.requests.insert(position.1 as int, request),
                        ..collection
                    },
                ),
            ),
            EntityModel::REQUEST(_) => entities,
        },
        None => entities.insert(position.1 as int, EntityModel::REQUEST(request)),
    }
}

/// The tree with the fold state of the collection at an index set; a
/// request at the index stays as it is.
pub open spec fn with_fold_state(entities: Seq<EntityModel>, index: int, state: bool) -> Seq<
    EntityModel,
> {
    match entities[index] {
        EntityModel::COLLECTION(collection) => entities.update(
            index,
            EntityModel::COLLECTION(CollectionModel { is_folded: state, ..collection }),
        ),
        EntityModel::REQUEST(_) => entities,
    }
}

/// The tree with the changes of the selected entity given up: those of the
/// collection, where one is selected alone, and those of the selected
/// request.
pub open spec fn with_changes_cancelled(entities: Seq<EntityModel>, selection: SelectedEntity) -> Seq<
    EntityModel,
> {
    match (selection.collection_idx, selection.request_idx) {
        (Some(c), Some(r)) => match entities[c as int] {
            EntityModel::COLLECTION(collection) => entities.update(
                c as int,
                EntityModel::COLLECTION(
                    CollectionModel {
                        requests: collection.requests.update(
                            r as int,
                            reverted_request(collection.requests[r as int]),
                        ),
                        ..collection
                    },
                ),
            ),
            EntityModel::REQUEST(_) => entities,
        },
        (Some(c), None) => match entities[c as int] {
            EntityModel::COLLECTION(collection) => entities.update(
                c as int,
                EntityModel::COLLECTION(reverted_collection(collection)),
            ),
            EntityModel::REQUEST(_) => entities,
        },
        (None, Some(r)) => match entities[r as int] {
            EntityModel::COLLECTION(_) => entities,
            EntityModel::REQUEST(request) => entities.update(
                r as int,
                EntityModel::REQUEST(reverted_request(request)),
            ),
        },
        (None, None) => entities,
    }
}

/// True where a move of the selected request has something to do: a
/// request is selected, and the target is another place than the one it
/// is in.
pub open spec fn move_applies(page: MainPageModel, target: Option<usize>) -> bool {
    let selection = page.selected_entity;
    &&& selection.request_idx is Some
    &&& !(target is None && selection.collection_idx is None)
    &&& !(selection.collection_idx is Some && target == selection.collection_idx)
}

/// The tree without the selected request, and the request taken out. Where
/// the selection names no collection, the entity at the request index is
/// taken off the root; only a request among them is handed on.
pub open spec fn without_selected_request(entities: Seq<EntityModel>, selection: SelectedEntity) -> (
    Seq<EntityModel>,
    Option<RequestModel>,
) {
    let r = selection.request_idx->0 as int;
    match collection_at(entities, selection) {
        Some(collection) => (
            entities.update(
                selection.collection_idx->0 as int,
                EntityModel::COLLECTION(
                    CollectionModel { requests: collection.requests.remove(r), ..collection },
                ),
            ),
            Some(collection.requests[r]),
        ),
        None => (
            entities.remove(r),
            match entities[r] {
                EntityModel::REQUEST(request) => Some(request),
                EntityModel::COLLECTION(_) => None,
            },
        ),
    }
}

/// The index of the target collection once the selected request is out of
/// the tree: one less where the request stood at the root before it.
pub open spec fn shifted_target(selection: SelectedEntity, target: usize) -> int {
    if selection.collection_idx is None && target > selection.request_idx->0 {
        target - 1
    } else {
        target as int
    }
}

/// True where a move of the selected request stays within the tree: the
/// selection points into it, and so does the target once the request is
/// taken out.
pub open spec fn move_in_range(page: MainPageModel, target: Option<usize>) -> bool {
    let selection = page.selected_entity;
    let r = selection.request_idx->0;
    move_applies(page, target) ==> {
        &&& selection.collection_idx matches Some(c) ==> c < page.entities.len()
        &&& match collection_at(page.entities, selection) {
            Some(collection) => r < collection.requests.len(),
            None => r < page.entities.len(),
        }
        &&& (without_selected_request(page.entities, selection).1 is Some && target is Some)
            ==> shifted_target(selection, target->0) < without_selected_request(
            page.entities,
            selection,
        ).0.len()
    }
}

/// What a move of the selected request to a collection, or to the root,
/// makes of the page. The request leaves its place and joins the end of
/// the target, which is unfolded; it stays selected in its new place, and
/// the filter is dropped. A target that is no collection loses the
/// request. Where the move has nothing to do the page stays as it is.
pub open spec fn spec_move(page: MainPageModel, target: Option<usize>) -> MainPageModel {
    let selection = page.selected_entity;
    if !move_applies(page, target) {
        page
    } else {
        let (taken, moved) = without_selected_request(page.entities, selection);
        match moved {
            None => MainPageModel { entities: taken, ..page },
            Some(request) => match target {
                Some(t) => {
                    let at = shifted_target(selection, t);
                    match taken[at] {
                        EntityModel::COLLECTION(collection) => unfiltered(
                            MainPageModel {
                                entities: taken.update(
                                    at,
                                    EntityModel::COLLECTION(
                                        CollectionModel {
                                            requests: collection.requests.push(request),
                                            is_folded: false,
                                            ..collection
                                        },
                                    ),
                                ),
                                selected_entity: SelectedEntity {
                                    collection_idx: Some(at as usize),
                                    request_idx: Some(collection.requests.len() as usize),
                                },
                                ..page
                            },
                        ),
                        EntityModel::REQUEST(_) => unfiltered(
                            MainPageModel { entities: taken, ..page },
                        ),
                    }
                },
                None => unfiltered(
                    MainPageModel {
                        entities: taken.push(EntityModel::REQUEST(request)),
                        selected_entity: SelectedEntity {
                            collection_idx: None,
                            request_idx: Some(taken.len() as usize),
                        },
                        ..page
                    },
                ),
            },
        }
    }
}

/// True where the entity marked for deletion is there to delete: a
/// request in a collection, a collection, or a request at the root.
pub open spec fn deletion_applies(page: MainPageModel) -> bool {
    let mark = page.deletion_entity;
    match (mark.collection_idx, mark.request_idx) {
        (Some(c), _) => page.entities[c as int] is COLLECTION,
        (None, Some(r)) => page.entities[r as int] is REQUEST,
        (None, None) => false,
    }
}

/// What deleting the marked entity makes of the page. The entity leaves
/// the tree; if it was the selected one, nothing of it stays selected; the
/// mark is taken off and the filter is dropped. Where there is nothing to
/// delete the page stays as it is.
pub open spec fn spec_delete(page: MainPageModel) -> MainPageModel {
    let mark = page.deletion_entity;
    let selection = page.selected_entity;
    let nothing = SelectedEntity { collection_idx: None, request_idx: None };
    if !deletion_applies(page) {
        page
    } else {
        match (mark.collection_idx, mark.request_idx) {
            (Some(c), Some(r)) => {
                let collection = page.entities[c as int]->COLLECTION_0;
                unfiltered(
                    MainPageModel {
                        entities: page.entities.update(
                            c as int,
                            EntityModel::COLLECTION(
                                CollectionModel {
                                    requests: collection.requests.remove(r as int),
                                    ..collection
                                },
                            ),
                        ),
                        selected_entity: if selection.spec_request_is_selected(Some(c), r) {
                            nothing
                        } else {
                            selection
                        },
                        deletion_entity: nothing,
                        ..page
                    },
                )
            },
            (Some(c), None) => unfiltered(
                MainPageModel {
                    entities: page.entities.remove(c as int),
                    selected_entity: if selection.spec_collection_is_selected(c) {
                        nothing
                    } else {
                        selection
                    },
                    deletion_entity: nothing,
                    ..page
                },
            ),
            (None, Some(r)) => unfiltered(
                MainPageModel {
                    entities: page.entities.remove(r as int),
                    selected_entity: if selection.spec_request_is_selected(None, r) {
                        nothing
                    } else {
                        selection
                    },
                    deletion_entity: nothing,
                    ..page
                },
            ),
            (None, None) => page,
        }
    }
}

/// How many items the selection stands for: one for a request, the
/// requests of a collection, the entities at the root where the selection
/// names nothing of its kind.
pub open spec fn selected_items_count(page: MainPageModel) -> nat {
    if !page.selected_entity.spec_is_selected() {
        page.entities.len()
    } else if request_at(page.entities, page.selected_entity) is Some {
        1
    } else {
        match collection_at(page.entities, page.selected_entity) {
            Some(collection) => collection.requests.len(),
            None => page.entities.len(),
        }
    }
}

/// The name of a lifecycle state.
pub open spec fn state_name(state: State) -> Seq<char> {
    match state {
        State::FREE => "FREE"@,
        State::BUSY => "BUSY"@,
        State::CONNECTED => "CONNECTED"@,
    }
}

/// True where `after` is `before` with the entity at one position of the
/// tree replaced, and nothing else changed.
pub open spec fn entity_replaced(before: MainPage, after: MainPage, at: int, entity: Entity) -> bool {
    &&& after.entities@ =~= before.entities@.update(at, entity)
    &&& after.filtered_entities == before.filtered_entities
    &&& after.selected_entity == before.selected_entity
    &&& after.deletion_entity == before.deletion_entity
    &&& after.filter_text == before.filter_text
    &&& after.request_move_target == before.request_move_target
    &&& after.right_panel == before.right_panel
}

/// True where two pages hold the same tree and agree in everything else.
pub open spec fn same_page(before: MainPage, after: MainPage) -> bool {
    &&& after.entities@ =~= before.entities@
    &&& after.filtered_entities == before.filtered_entities
    &&& after.selected_entity == before.selected_entity
    &&& after.deletion_entity == before.deletion_entity
    &&& after.filter_text == before.filter_text
    &&& after.request_move_target == before.request_move_target
    &&& after.right_panel == before.right_panel
}

/// True where `after` is `before` with the request at one position
/// replaced, and nothing else changed.
pub open spec fn request_replaced(before: Collection, after: Collection, at: int, request: Request) -> bool {
    &&& after.requests@ =~= before.requests@.update(at, request)
    &&& after.id == before.id
    &&& after.is_changed == before.is_changed
    &&& after.original == before.original
    &&& after.draft == before.draft
    &&& after.is_folded == before.is_folded
}

/// A tree with one entity replaced has the view of the tree with the view
/// of that entity replaced.
pub proof fn lemma_entity_replaced_view(before: MainPage, after: MainPage, at: int, entity: Entity)
    requires
        entity_replaced(before, after, at, entity),
        0 <= at < before.entities@.len(),
    ensures
        after@ == (MainPageModel { entities: before@.entities.update(at, entity@), ..before@ }),
{
    assert(after.entities.deep_view() =~= before.entities.deep_view().update(at, entity@));
}

/// A collection with one request replaced has the view of the collection
/// with the view of that request replaced.
pub proof fn lemma_request_replaced_view(
    before: Collection,
    after: Collection,
    at: int,
    request: Request,
)
    requires
        request_replaced(before, after, at, request),
        0 <= at < before.requests@.len(),
    ensures
        after@ == (CollectionModel { requests: before@.requests.update(at, request@), ..before@ }),
{
    assert(after.requests.deep_view() =~= before.requests.deep_view().update(at, request@));
}

/// True where `after` is `before` with the selected request replaced, and
/// nothing else changed.
pub open spec fn selected_request_replaced(before: MainPage, after: MainPage, request: Request) -> bool {
    match (before.selected_entity.collection_idx, before.selected_entity.request_idx) {
        (Some(c), Some(r)) => {
            &&& after.entities@.len() == before.entities@.len()
            &&& forall|i: int|
                0 <= i < before.entities@.len() && i != c ==> after.entities@[i]
                    == before.entities@[i]
            &&& before.entities@[c as int] matches Entity::COLLECTION(was)
            &&& after.entities@[c as int] matches Entity::COLLECTION(is)
            &&& request_replaced(was, is, r as int, request)
            &&& after.filtered_entities == before.filtered_entities
            &&& after.selected_entity == before.selected_entity
            &&& after.deletion_entity == before.deletion_entity
            &&& after.filter_text == before.filter_text
            &&& after.request_move_target == before.request_move_target
            &&& after.right_panel == before.right_panel
        },
        (None, Some(r)) => entity_replaced(before, after, r as int, Entity::REQUEST(request)),
        _ => false,
    }
}

/// The tree with the selected request replaced.
pub open spec fn with_selected_request(
    entities: Seq<EntityModel>,
    selection: SelectedEntity,
    request: RequestModel,
) -> Seq<EntityModel> {
    match (selection.collection_idx, selection.request_idx) {
        (Some(c), Some(r)) => match entities[c as int] {
            EntityModel::COLLECTION(collection) => entities.update(
                c as int,
                EntityModel::COLLECTION(
                    CollectionModel {
                        requests: collection.requests.update(r as int, request),
                        ..collection
                    },
                ),
            ),
            EntityModel::REQUEST(_) => entities,
        },
        (None, Some(r)) => entities.update(r as int, EntityModel::REQUEST(request)),
        _ => entities,
    }
}

/// A page with the selected request replaced has the view of the page with
/// the view of that request replaced.
pub proof fn lemma_selected_request_replaced_view(before: MainPage, after: MainPage, request: Request)
    requires
        selected_request_replaced(before, after, request),
        selection_in_range(before@.entities, before.selected_entity),
    ensures
        after@ == (MainPageModel {
            entities: with_selected_request(before@.entities, before.selected_entity, request@),
            ..before@
        }),
{
    match (before.selected_entity.collection_idx, before.selected_entity.request_idx) {
        (Some(c), Some(r)) => {
            let was = before.entities@[c as int]->COLLECTION_0;
            let is = after.entities@[c as int]->COLLECTION_0;
            lemma_request_replaced_view(was, is, r as int, request);
            assert(after.entities.deep_view() =~= with_selected_request(
                before@.entities,
                before.selected_entity,
                request@,
            ));
        },
        (None, Some(r)) => {
            lemma_entity_replaced_view(before, after, r as int, Entity::REQUEST(request));
        },
        _ => {},
    }
}

/// The main page as it stands after loading a stored tree: everything on
/// screen, nothing selected, nothing planned.
pub open spec fn loaded_page(stored: Seq<StoredEntityModel>) -> MainPageModel {
    let entities = stored.map_values(|entity: StoredEntityModel| loaded_entity(entity));
    MainPageModel {
        entities,
        filtered_entities: everything(entities),
        selected_entity: SelectedEntity { collection_idx: None, request_idx: None },
        deletion_entity: SelectedEntity { collection_idx: None, request_idx: None },
        filter_text: Seq::empty(),
        request_move_target: Seq::empty(),
        right_panel: RightPanel { is_visible: false, panel_type: RightPanelType::EVENTS },
    }
}

impl MainPage {
    /// Makes the main page of what is stored of it.
    pub fn from(value: &MainPageSettings) -> (r: Self)
        ensures
            r@ == loaded_page(value@),
    {
        let mut entities: Vec<Entity> = Vec::new();
        let mut i: usize = 0;
        while i < value.entities.len()
            invariant
                i <= value.entities.len(),
                entities@.len() == i,
                forall|k: int| 0 <= k < i ==> entities@[k]@ == loaded_entity(value.entities@[k]@),
            decreases value.entities.len() - i,
        {
            entities.push(Entity::from(&value.entities[i]));
            i += 1;
        }
        assert(entities.deep_view() =~= value@.map_values(
            |entity: StoredEntityModel| loaded_entity(entity),
        ));
        MainPage {
            filtered_entities: FilteredEntities::from(&entities),
            entities,
            selected_entity: SelectedEntity::new(),
            filter_text: String::new(),
            request_move_target: RequestMoveTarget::new(),
            deletion_entity: SelectedEntity::new(),
            right_panel: RightPanel::default(),
        }
    }

    /// Tells whether a selection points into the tree.
    pub fn selection_is_in_range(&self, selection: &SelectedEntity) -> (r: bool)
        ensures
            r == selection_in_range(self@.entities, *selection),
    {
        proof {
            assert(self@.entities.len() == self.entities@.len());
        }
        match (selection.collection_idx, selection.request_idx) {
            (Some(c), Some(r)) => {
                if c >= self.entities.len() {
                    return false;
                }
                assert(self@.entities[c as int] == self.entities@[c as int]@);
                match &self.entities[c] {
                    Entity::COLLECTION(collection) => {
                        assert(collection@.requests.len() == collection.requests@.len());
                        r < collection.requests.len()
                    },
                    Entity::REQUEST(_) => true,
                }
            },
            (Some(c), None) => c < self.entities.len(),
            (None, Some(r)) => r < self.entities.len(),
            (None, None) => true,
        }
    }

    /// Tells whether a selection names an entity of its own kind.
    pub fn selection_is_valid(&self, selection: &SelectedEntity) -> (r: bool)
        ensures
            r == selection_valid(self@.entities, *selection),
    {
        proof {
            assert(self@.entities.len() == self.entities@.len());
        }
        match (selection.collection_idx, selection.request_idx) {
            (Some(c), Some(r)) => {
                if c >= self.entities.len() {
                    return false;
                }
                assert(self@.entities[c as int] == self.entities@[c as int]@);
                match &self.entities[c] {
                    Entity::COLLECTION(collection) => {
                        assert(collection@.requests.len() == collection.requests@.len());
                        r < collection.requests.len()
                    },
                    Entity::REQUEST(_) => false,
                }
            },
            (Some(c), None) => {
                if c >= self.entities.len() {
                    return false;
                }
                assert(self@.entities[c as int] == self.entities@[c as int]@);
                self.entities[c].is_collection()
            },
            (None, Some(r)) => {
                if r >= self.entities.len() {
                    return false;
                }
                assert(self@.entities[r as int] == self.entities@[r as int]@);
                self.entities[r].is_request()
            },
            (None, None) => true,
        }
    }

    /// Tells whether a move of the selected request to a target stays
    /// within the tree.
    pub fn move_is_in_range(&self, target: Option<usize>) -> (r: bool)
        ensures
            r == move_in_range(self@, target),
    {
        proof {
            assert(self@.entities.len() == self.entities@.len());
        }
        let request_idx = match self.selected_entity.request_idx {
            Some(idx) => idx,
            None => {
                return true;
            },
        };
        if target.is_none() && self.selected_entity.collection_idx.is_none() {
            return true;
        }
        if let Some(c) = self.selected_entity.collection_idx {
            if let Some(t) = target {
                if t == c {
                    return true;
                }
            }
        }
        assert(move_applies(self@, target));
        let len = self.entities.len();
        // where the request is taken from, and whether a request comes out
        let (from_collection, comes_out) = match self.selected_entity.collection_idx {
            Some(c) => {
                if c >= len {
                    return false;
                }
                assert(self@.entities[c as int] == self.entities@[c as int]@);
                match &self.entities[c] {
                    Entity::COLLECTION(collection) => {
                        assert(collection@.requests.len() == collection.requests@.len());
                        if request_idx >= collection.requests.len() {
                            return false;
                        }
                        (true, true)
                    },
                    Entity::REQUEST(_) => {
                        if request_idx >= len {
                            return false;
                        }
                        assert(self@.entities[request_idx as int]
                            == self.entities@[request_idx as int]@);
                        (false, self.entities[request_idx].is_request())
                    },
                }
            },
            None => {
                if request_idx >= len {
                    return false;
                }
                assert(self@.entities[request_idx as int] == self.entities@[request_idx as int]@);
                (false, self.entities[request_idx].is_request())
            },
        };
        assert(from_collection == collection_at(self@.entities, self.selected_entity) is Some);
        assert(comes_out == without_selected_request(
            self@.entities,
            self.selected_entity,
        ).1 is Some);
        match target {
            Some(t) => {
                if !comes_out {
                    return true;
                }
                let shifted = if self.selected_entity.collection_idx.is_none() && t > request_idx {
                    t - 1
                } else {
                    t
                };
                let left = if from_collection {
                    len
                } else {
                    len - 1
                };
                shifted < left
            },
            None => true,
        }
    }

    /// True where a request is selected.
    pub fn is_request_selected(&self) -> (r: bool)
        ensures
            r == self.selected_entity.request_idx is Some,
    {
        match self.selected_entity.request_idx {
            Some(_) => true,
            None => false,
        }
    }

    /// True where a collection is selected, and no request in it.
    pub fn is_collection_selected(&self) -> (r: bool)
        ensures
            r == (self.selected_entity.collection_idx is Some && self.selected_entity.request_idx
                is None),
    {
        match self.selected_entity.collection_idx {
            Some(_) => self.selected_entity.request_idx.is_none(),
            None => false,
        }
    }

    /// The collection that is selected, or that the selected request is in.
    pub fn selected_collection(&self) -> (r: Option<&Collection>)
        requires
            self.selected_entity.collection_idx matches Some(c) ==> c < self.entities.len(),
        ensures
            match collection_at(self@.entities, self.selected_entity) {
                Some(collection) => r matches Some(found) && found@ == collection,
                None => r is None,
            },
    {
        let idx = match self.selected_entity.collection_idx {
            Some(idx) => idx,
            None => {
                return None;
            },
        };
        match &self.entities[idx] {
            Entity::COLLECTION(collection) => Some(collection),
            Entity::REQUEST(_) => None,
        }
    }

    /// The collection that is selected, for editing. What is written
    /// through the reference is what the tree holds afterwards.
    pub fn selected_collection_mut(&mut self) -> (r: Option<&mut Collection>)
        requires
            old(self).selected_entity.collection_idx matches Some(c) ==> c < old(
                self,
            ).entities.len(),
        ensures
            match collection_at(old(self)@.entities, old(self).selected_entity) {
                Some(collection) => r matches Some(found) && found@ == collection
                    && entity_replaced(
                    *old(self),
                    *final(self),
                    old(self).selected_entity.collection_idx->0 as int,
                    Entity::COLLECTION(*final(found)),
                ),
                None => r is None && same_page(*old(self), *final(self)),
            },
    {
        let idx = match self.selected_entity.collection_idx {
            Some(idx) => idx,
            None => {
                return None;
            },
        };
        match &mut self.entities[idx] {
            Entity::COLLECTION(collection) => Some(collection),
            Entity::REQUEST(_) => None,
        }
    }

    /// Marks what is selected as changed: the request, where one is
    /// selected, else the collection.
    pub fn selected_as_changed(&mut self)
        requires
            selection_in_range(old(self)@.entities, old(self).selected_entity),
        ensures
            final(self)@ == (MainPageModel {
                entities: marked_changed(old(self)@.entities, old(self).selected_entity),
                ..old(self)@
            }),
    {
        match (self.selected_entity.collection_idx, self.selected_entity.request_idx) {
            (None, None) => {},
            (None, Some(request_idx)) => {
                match &mut self.entities[request_idx] {
                    Entity::COLLECTION(_collection) => {},
                    Entity::REQUEST(request) => {
                        request.is_changed = true;
                    },
                }
            },
            (Some(collection_idx), None) => {
                match &mut self.entities[collection_idx] {
                    Entity::COLLECTION(collection) => {
                        collection.is_changed = true;
                    },
                    Entity::REQUEST(_request) => {},
                }
            },
            (Some(collection_idx), Some(request_idx)) => {
                match &mut self.entities[collection_idx] {
                    Entity::COLLECTION(collection) => {
                        let ghost before = collection.requests.deep_view();
                        collection.requests[request_idx].is_changed = true;
                        assert(collection.requests.deep_view() =~= before.update(
                            request_idx as int,
                            RequestModel { is_changed: true, ..before[request_idx as int] },
                        ));
                    },
                    Entity::REQUEST(_request) => {},
                }
            },
        }
        assert(self.entities.deep_view() =~= marked_changed(
            old(self)@.entities,
            old(self).selected_entity,
        ));
    }
    /// The request that is selected.
    pub fn selected_request(&self) -> (r: Option<&Request>)
        requires
            selection_in_range(self@.entities, self.selected_entity),
        ensures
            match request_at(self@.entities, self.selected_entity) {
                Some(request) => r matches Some(found) && found@ == request,
                None => r is None,
            },
    {
        let request_idx = match self.selected_entity.request_idx {
            Some(idx) => idx,
            None => {
                return None;
            },
        };
        match self.selected_entity.collection_idx {
            Some(val) => {
                if let Entity::COLLECTION(collection) = &self.entities[val] {
                    return Some(&collection.requests[request_idx]);
                } else {
                    return None;
                }
            },
            None => {
                if let Entity::REQUEST(request) = &self.entities[request_idx] {
                    return Some(request);
                } else {
                    return None;
                }
            },
        }
    }

    /// The request that is selected, for editing. What is written through
    /// the reference is what the tree holds afterwards.
    pub fn selected_request_mut(&mut self) -> (r: Option<&mut Request>)
        requires
            selection_in_range(old(self)@.entities, old(self).selected_entity),
        ensures
            match request_at(old(self)@.entities, old(self).selected_entity) {
                Some(request) => r matches Some(found) && found@ == request
                    && selected_request_replaced(*old(self), *final(self), *final(found)),
                None => r is None && same_page(*old(self), *final(self)),
            },
    {
        let request_idx = match self.selected_entity.request_idx {
            Some(idx) => idx,
            None => {
                return None;
            },
        };
        match self.selected_entity.collection_idx {
            Some(val) => {
                if let Entity::COLLECTION(collection) = &mut self.entities[val] {
                    return Some(&mut collection.requests[request_idx]);
                } else {
                    return None;
                }
            },
            None => {
                if let Entity::REQUEST(request) = &mut self.entities[request_idx] {
                    return Some(request);
                } else {
                    return None;
                }
            },
        }
    }

    /// The selection as a text that tells one selection from another: the
    /// index of the collection, a hyphen, the index of the request, with
    /// `None` for an index that is not set.
    pub fn selected_request_salt(&self) -> (r: String)
        ensures
            r@ == index_text(self.selected_entity.collection_idx) + "-"@ + index_text(
                self.selected_entity.request_idx,
            ),
    {
        let collection_string = match self.selected_entity.collection_idx {
            Some(idx) => usize_to_string(idx),
            None => "None".to_string(),
        };
        let request_string = match self.selected_entity.request_idx {
            Some(idx) => usize_to_string(idx),
            None => "None".to_string(),
        };
        collection_string.concat("-").concat(request_string.as_str())
    }

    /// Works out what of the tree passes the filter. The empty filter lets
    /// everything pass.
    pub fn apply_filter(&mut self)
        ensures
            final(self)@ == (MainPageModel {
                filtered_entities: filtered_tree(old(self)@.entities, old(self)@.filter_text),
                ..old(self)@
            }),
            final(self).entities == old(self).entities,
    {
        if self.filter_text.as_str().is_empty() {
            self.filtered_entities = FilteredEntities::from(&self.entities);
            return ;
        }
        let mut filtered_entities = FilteredEntities::new();
        let mut entity_idx: usize = 0;
        assert(filtered_entities@ =~= entities_filtered(self@.entities, self@.filter_text, 0));
        while entity_idx < self.entities.len()
            invariant
                entity_idx <= self.entities.len(),
                *self == *old(self),
                filtered_entities@ == entities_filtered(
                    self@.entities,
                    self@.filter_text,
                    entity_idx as int,
                ),
            decreases self.entities.len() - entity_idx,
        {
            match &self.entities[entity_idx] {
                Entity::COLLECTION(collection) => {
                    if collection.is_filtered(&self.filter_text) {
                        filtered_entities.push_collection(entity_idx);
                    }
                    let ghost with_collection = filtered_entities@;
                    let mut request_idx: usize = 0;
                    while request_idx < collection.requests.len()
                        invariant
                            request_idx <= collection.requests.len(),
                            filtered_entities@ == requests_filtered(
                                with_collection,
                                collection@.requests,
                                self@.filter_text,
                                entity_idx,
                                request_idx as int,
                            ),
                        decreases collection.requests.len() - request_idx,
                    {
                        if collection.requests[request_idx].is_filtered(&self.filter_text) {
                            filtered_entities.push_request(request_idx, Some(entity_idx));
                        }
                        request_idx += 1;
                    }
                },
                Entity::REQUEST(request) => {
                    if request.is_filtered(&self.filter_text) {
                        filtered_entities.push_request(entity_idx, None);
                    }
                },
            }
            entity_idx += 1;
        }
        self.filtered_entities = filtered_entities;
    }

    /// Drops the filter: it is empty again and the whole tree passes.
    pub fn drop_filter(&mut self)
        ensures
            final(self)@ == unfiltered(old(self)@),
            final(self).entities == old(self).entities,
    {
        self.filter_text = String::new();
        self.apply_filter();
    }

    /// Makes a new collection, right after the selected collection, or at
    /// the end where a request or nothing is selected. Answers where it
    /// stands.
    pub fn new_collection(&mut self) -> (r: usize)
        requires
            old(self).selected_entity.collection_idx matches Some(idx) ==> idx < old(
                self,
            ).entities.len(),
        ensures
            r == new_collection_position(old(self)@),
            ({
                let made = final(self)@.entities[r as int];
                &&& made matches EntityModel::COLLECTION(collection) && collection
                    == new_collection(collection.id) && collection.id.len() == ID_LENGTH
                &&& final(self)@ == (MainPageModel {
                    entities: old(self)@.entities.insert(r as int, made),
                    ..old(self)@
                })
            }),
    {
        let collection = Collection::default();
        let ghost made = collection@;
        let at = match self.selected_entity.collection_idx {
            Some(idx) => {
                if self.selected_entity.request_idx.is_some() {
                    self.entities.len()
                } else {
                    idx + 1
                }
            },
            None => self.entities.len(),
        };
        self.entities.insert(at, Entity::COLLECTION(collection));
        assert(self.entities.deep_view() =~= old(self)@.entities.insert(
            at as int,
            EntityModel::COLLECTION(new_collection(made.id)),
        ));
        at
    }

    /// Makes a new request: right after the selected request, at the end of
    /// the selected collection, or at the end of the root where nothing is
    /// selected. Answers where it stands: the collection, if it is in one,
    /// and its index.
    pub fn new_request(&mut self) -> (r: (Option<usize>, usize))
        requires
            selection_in_range(old(self)@.entities, old(self).selected_entity),
        ensures
            r == new_request_position(old(self)@),
            ({
                let made = request_at(
                    final(self)@.entities,
                    SelectedEntity { collection_idx: r.0, request_idx: Some(r.1) },
                );
                &&& made matches Some(request) && request == new_request(request.id)
                    && request.id.len() == ID_LENGTH
                &&& final(self)@ == (MainPageModel {
                    entities: with_request_at(old(self)@.entities, r, made->0),
                    ..old(self)@
                })
            }),
    {
        let request = Request::default();
        let ghost made = request@;
        proof {
            assert(self@.entities.len() == self.entities@.len());
            if let Some(c) = self.selected_entity.collection_idx {
                assert(self@.entities[c as int] == self.entities@[c as int]@);
                if let Entity::COLLECTION(collection) = self.entities@[c as int] {
                    assert(collection@.requests.len() == collection.requests@.len());
                }
            }
        }
        let position: (Option<usize>, usize) = match (
            self.selected_entity.collection_idx,
            self.selected_entity.request_idx,
        ) {
            (Some(c), Some(r)) => {
                assert(c < self.entities.len());
                match &self.entities[c] {
                    Entity::COLLECTION(collection) => {
                        assert(r < collection.requests.len());
                        (Some(c), r + 1)
                    },
                    Entity::REQUEST(_) => (None, c + 1),
                }
            },
            (Some(c), None) => {
                assert(c < self.entities.len());
                match &self.entities[c] {
                    Entity::COLLECTION(collection) => (Some(c), collection.requests.len()),
                    Entity::REQUEST(_) => (None, c + 1),
                }
            },
            (None, Some(r)) => {
                assert(r < self.entities.len());
                (None, r + 1)
            },
            (None, None) => (None, self.entities.len()),
        };
        match position.0 {
            Some(c) => {
                match &mut self.entities[c] {
                    Entity::COLLECTION(collection) => {
                        let ghost before = collection.requests.deep_view();
                        collection.requests.insert(position.1, request);
                        assert(collection.requests.deep_view() =~= before.insert(
                            position.1 as int,
                            made,
                        ));
                    },
                    Entity::REQUEST(_) => {},
                }
            },
            None => {
                self.entities.insert(position.1, Entity::REQUEST(request));
            },
        }
        assert(self.entities.deep_view() =~= with_request_at(
            old(self)@.entities,
            position,
            new_request(made.id),
        ));
        position
    }

    /// Folds or unfolds the collection at an index; a request at the index
    /// stays as it is.
    pub fn set_collection_fold_state(&mut self, index: usize, state: bool)
        requires
            index < old(self).entities.len(),
        ensures
            final(self)@ == (MainPageModel {
                entities: with_fold_state(old(self)@.entities, index as int, state),
                ..old(self)@
            }),
    {
        match &mut self.entities[index] {
            Entity::COLLECTION(collection) => {
                collection.is_folded = state;
            },
            Entity::REQUEST(_) => {},
        }
        assert(self.entities.deep_view() =~= with_fold_state(
            old(self)@.entities,
            index as int,
            state,
        ));
    }

    /// True where the selected entity was changed since it was last saved:
    /// the collection, where one is selected alone, else the request.
    pub fn entity_is_changed(&self) -> (r: bool)
        requires
            selection_valid(self@.entities, self.selected_entity),
        ensures
            r == match (self.selected_entity.collection_idx, self.selected_entity.request_idx) {
                (Some(c), None) => self@.entities[c as int]->COLLECTION_0.is_changed,
                (_, Some(_)) => request_at(self@.entities, self.selected_entity)->0.is_changed,
                (None, None) => false,
            },
    {
        if self.is_collection_selected() {
            return match self.selected_collection() {
                Some(collection) => collection.is_changed,
                None => false,
            };
        }
        if self.is_request_selected() {
            return match self.selected_request() {
                Some(request) => request.is_changed,
                None => false,
            };
        }
        false
    }

    /// Gives up the changes of the selected entity: those of the
    /// collection, where one is selected alone, else those of the request.
    pub fn cancel_changes_of_selected_entity(&mut self)
        requires
            selection_valid(old(self)@.entities, old(self).selected_entity),
        ensures
            final(self)@ == (MainPageModel {
                entities: with_changes_cancelled(old(self)@.entities, old(self).selected_entity),
                ..old(self)@
            }),
    {
        match (self.selected_entity.collection_idx, self.selected_entity.request_idx) {
            (Some(c), None) => {
                match &mut self.entities[c] {
                    Entity::COLLECTION(collection) => {
                        collection.cancel_changes();
                    },
                    Entity::REQUEST(_) => {},
                }
            },
            (Some(c), Some(r)) => {
                match &mut self.entities[c] {
                    Entity::COLLECTION(collection) => {
                        let ghost before = collection.requests.deep_view();
                        collection.requests[r].cancel_changes();
                        assert(collection.requests.deep_view() =~= before.update(
                            r as int,
                            reverted_request(before[r as int]),
                        ));
                    },
                    Entity::REQUEST(_) => {},
                }
            },
            (None, Some(r)) => {
                match &mut self.entities[r] {
                    Entity::COLLECTION(_) => {},
                    Entity::REQUEST(request) => {
                        request.cancel_changes();
                    },
                }
            },
            (None, None) => {},
        }
        assert(self.entities.deep_view() =~= with_changes_cancelled(
            old(self)@.entities,
            old(self).selected_entity,
        ));
    }

    /// Carries out the move that was planned first, if one is planned.
    /// Tells whether there was one.
    pub fn update_request_move(&mut self) -> (r: bool)
        requires
            old(self)@.request_move_target.len() > 0 ==> move_in_range(
                old(self)@,
                old(self)@.request_move_target[0],
            ),
        ensures
            r == (old(self)@.request_move_target.len() > 0),
            r ==> final(self)@ == spec_move(
                MainPageModel {
                    request_move_target: old(self)@.request_move_target.drop_first(),
                    ..old(self)@
                },
                old(self)@.request_move_target[0],
            ),
            !r ==> final(self)@ == old(self)@,
    {
        if self.request_move_target.move_planned() {
            let requested_move = self.request_move_target.take();
            self.move_selected_request_to_collection(requested_move);
            return true;
        }
        false
    }

    /// Moves the selected request to the end of a collection, or to the end
    /// of the root for `None`. The request stays selected in its new place,
    /// the target is unfolded and the filter is dropped. Nothing happens
    /// where no request is selected or where it is in the target already.
    pub fn move_selected_request_to_collection(&mut self, target_collection_idx: Option<usize>)
        requires
            move_in_range(old(self)@, target_collection_idx),
        ensures
            final(self)@ == spec_move(old(self)@, target_collection_idx),
    {
        let request_idx = match self.selected_entity.request_idx {
            Some(idx) => idx,
            None => {
                return ;
            },
        };
        if target_collection_idx.is_none() && self.selected_entity.collection_idx.is_none() {
            return ;
        }
        if let Some(old_collection_idx) = self.selected_entity.collection_idx {
            if let Some(new_collection_idx) = target_collection_idx {
                if new_collection_idx == old_collection_idx {
                    return ;
                }
            }
        }
        assert(move_applies(old(self)@, target_collection_idx));
        let ghost start = self@.entities;
        let ghost selection = self.selected_entity;
        proof {
            assert(start.len() == self.entities@.len());
            if let Some(c) = selection.collection_idx {
                assert(start[c as int] == self.entities@[c as int]@);
            }
        }
        let in_collection = match self.selected_entity.collection_idx {
            Some(c) => self.entities[c].is_collection(),
            None => false,
        };
        assert(in_collection == collection_at(start, selection) is Some);
        let request = if in_collection {
            let c = self.selected_entity.collection_idx.unwrap();
            match &mut self.entities[c] {
                Entity::COLLECTION(collection) => {
                    let ghost before = collection.requests.deep_view();
                    assert(before.len() == collection.requests@.len());
                    let taken = collection.requests.remove(request_idx);
                    assert(collection.requests.deep_view() =~= before.remove(request_idx as int));
                    assert(taken@ == before[request_idx as int]);
                    taken
                },
                Entity::REQUEST(_) => vstd::pervasive::unreached(),
            }
        } else {
            let selected_request = self.entities.remove(request_idx);
            assert(selected_request@ == start[request_idx as int]);
            assert(self.entities.deep_view() =~= start.remove(request_idx as int));
            match selected_request {
                Entity::REQUEST(sr) => sr,
                Entity::COLLECTION(_) => {
                    return ;
                },
            }
        };
        let ghost taken = self@.entities;
        assert(taken =~= without_selected_request(start, selection).0);
        assert(Some(request@) == without_selected_request(start, selection).1);
        match target_collection_idx {
            Some(target) => {
                let mut target_col_idx = target;
                if self.selected_entity.collection_idx.is_none() && target_col_idx > request_idx {
                    target_col_idx -= 1;
                }
                assert(target_col_idx == shifted_target(selection, target));
                assert(taken.len() == self.entities@.len());
                assert(taken[target_col_idx as int] == self.entities@[target_col_idx as int]@);
                let placed: Option<usize> = match &mut self.entities[target_col_idx] {
                    Entity::COLLECTION(collection) => {
                        let ghost before = collection.requests.deep_view();
                        assert(before.len() == collection.requests@.len());
                        collection.requests.push(request);
                        assert(collection.requests.deep_view() =~= before.push(request@));
                        collection.is_folded = false;
                        Some(collection.requests.len() - 1)
                    },
                    Entity::REQUEST(_) => None,
                };
                if let Some(at) = placed {
                    self.selected_entity.select_request(Some(target_col_idx), at);
                }
                assert(self.entities.deep_view() =~= match taken[target_col_idx as int] {
                    EntityModel::COLLECTION(collection) => taken.update(
                        target_col_idx as int,
                        EntityModel::COLLECTION(
                            CollectionModel {
                                requests: collection.requests.push(request@),
                                is_folded: false,
                                ..collection
                            },
                        ),
                    ),
                    EntityModel::REQUEST(_) => taken,
                });
            },
            None => {
                self.entities.push(Entity::REQUEST(request));
                assert(self.entities.deep_view() =~= taken.push(EntityModel::REQUEST(request@)));
                let at = self.entities.len() - 1;
                self.selected_entity.select_request(None, at);
            },
        }
        self.drop_filter();
    }

    /// Deletes the entity that is marked for deletion. If it was the
    /// selected one, nothing of it stays selected; the mark is taken off
    /// and the filter is dropped. Tells whether anything was deleted.
    pub fn delete_marked_entity(&mut self) -> (r: bool)
        requires
            selection_in_range(old(self)@.entities, old(self).deletion_entity),
        ensures
            r == deletion_applies(old(self)@),
            final(self)@ == spec_delete(old(self)@),
    {
        let ghost start = self@.entities;
        proof {
            assert(start.len() == self.entities@.len());
        }
        match (self.deletion_entity.collection_idx, self.deletion_entity.request_idx) {
            (Some(collection_idx), Some(request_idx)) => {
                assert(start[collection_idx as int] == self.entities@[collection_idx as int]@);
                if !self.entities[collection_idx].is_collection() {
                    return false;
                }
                match &mut self.entities[collection_idx] {
                    Entity::COLLECTION(collection) => {
                        let ghost before = collection.requests.deep_view();
                        assert(before.len() == collection.requests@.len());
                        let _ = collection.requests.remove(request_idx);
                        assert(collection.requests.deep_view() =~= before.remove(
                            request_idx as int,
                        ));
                    },
                    Entity::REQUEST(_) => {},
                }
                assert(self.entities.deep_view() =~= start.update(
                    collection_idx as int,
                    EntityModel::COLLECTION(
                        CollectionModel {
                            requests: start[collection_idx as int]->COLLECTION_0.requests.remove(
                                request_idx as int,
                            ),
                            ..start[collection_idx as int]->COLLECTION_0
                        },
                    ),
                ));
                if self.selected_entity.request_is_selected(Some(collection_idx), request_idx) {
                    self.selected_entity.unselect_request();
                }
                self.drop_filter();
                self.deletion_entity.unselect_request();
                true
            },
            (Some(collection_idx), None) => {
                assert(start[collection_idx as int] == self.entities@[collection_idx as int]@);
                if !self.entities[collection_idx].is_collection() {
                    return false;
                }
                if self.selected_entity.collection_is_selected(collection_idx) {
                    self.selected_entity.unselect_collection();
                }
                let _ = self.entities.remove(collection_idx);
                assert(self.entities.deep_view() =~= start.remove(collection_idx as int));
                self.drop_filter();
                self.deletion_entity.unselect_collection();
                true
            },
            (None, Some(request_idx)) => {
                assert(start[request_idx as int] == self.entities@[request_idx as int]@);
                if !self.entities[request_idx].is_request() {
                    return false;
                }
                if self.selected_entity.request_is_selected(None, request_idx) {
                    self.selected_entity.unselect_request();
                }
                let _ = self.entities.remove(request_idx);
                assert(self.entities.deep_view() =~= start.remove(request_idx as int));
                self.drop_filter();
                self.deletion_entity.unselect_request();
                true
            },
            (None, None) => false,
        }
    }

    /// True where the entity at an index of the root is a collection.
    pub fn root_entity_is_collection(&self, idx: usize) -> (r: bool)
        ensures
            r == (idx < self@.entities.len() && self@.entities[idx as int] is COLLECTION),
    {
        if idx >= self.entities.len() {
            return false;
        }
        self.entities[idx].is_collection()
    }

    /// True where the entity at an index of the root is a request.
    pub fn root_entity_is_request(&self, idx: usize) -> (r: bool)
        ensures
            r == (idx < self@.entities.len() && self@.entities[idx as int] is REQUEST),
    {
        if idx >= self.entities.len() {
            return false;
        }
        self.entities[idx].is_request()
    }

    /// The collection at an index of the root, for editing. What is written
    /// through the reference is what the tree holds afterwards.
    pub fn get_collection_mut(&mut self, idx: usize) -> (r: Option<&mut Collection>)
        ensures
            if idx < old(self)@.entities.len() && old(self)@.entities[idx as int] is COLLECTION {
                r matches Some(found) && found@ == old(self)@.entities[idx as int]->COLLECTION_0
                    && entity_replaced(
                    *old(self),
                    *final(self),
                    idx as int,
                    Entity::COLLECTION(*final(found)),
                )
            } else {
                r is None && same_page(*old(self), *final(self))
            },
    {
        if idx >= self.entities.len() {
            return None;
        }
        match &mut self.entities[idx] {
            Entity::COLLECTION(collection) => Some(collection),
            Entity::REQUEST(_) => None,
        }
    }

    /// The request at an index of the root, for editing. What is written
    /// through the reference is what the tree holds afterwards.
    pub fn get_request_mut(&mut self, idx: usize) -> (r: Option<&mut Request>)
        ensures
            if idx < old(self)@.entities.len() && old(self)@.entities[idx as int] is REQUEST {
                r matches Some(found) && found@ == old(self)@.entities[idx as int]->REQUEST_0
                    && entity_replaced(
                    *old(self),
                    *final(self),
                    idx as int,
                    Entity::REQUEST(*final(found)),
                )
            } else {
                r is None && same_page(*old(self), *final(self))
            },
    {
        if idx >= self.entities.len() {
            return None;
        }
        match &mut self.entities[idx] {
            Entity::COLLECTION(_) => None,
            Entity::REQUEST(request) => Some(request),
        }
    }

    /// How many items the selection stands for.
    pub fn get_selected_items_count(&self) -> (r: usize)
        requires
            selection_in_range(self@.entities, self.selected_entity),
        ensures
            r == selected_items_count(self@),
    {
        if !self.selected_entity.is_selected() {
            return self.entities.len();
        }
        if self.selected_request().is_some() {
            return 1;
        }
        if let Some(collection) = self.selected_collection() {
            return collection.requests.len();
        }
        return self.entities.len();
    }

    /// The name of the lifecycle state of the selected request's executor;
    /// `FREE` where no request is selected.
    pub fn selected_request_executor_state(&self) -> (r: String)
        requires
            selection_in_range(self@.entities, self.selected_entity),
        ensures
            r@ == match request_at(self@.entities, self.selected_entity) {
                Some(request) => state_name(request.executor.state),
                None => "FREE"@,
            },
    {
        if let Some(request) = self.selected_request() {
            match request.executor.current_state() {
                State::FREE => return "FREE".to_string(),
                State::BUSY => return "BUSY".to_string(),
                State::CONNECTED => return "CONNECTED".to_string(),
            }
        }
        return "FREE".to_string();
    }
}

} // verus!