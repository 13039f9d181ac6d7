use frapi::executor::session::Activation;
use frapi::executor::State;
use frapi::settings::protocol_settings::Protocol;
use frapi::states::main_page::collection::{Collection, CollectionData};
use frapi::states::main_page::entity::Entity;
use frapi::states::main_page::filtered_entity::{FilteredEntities, FilteredEntity};
use frapi::states::main_page::request::{Request, RequestBodyDetails, RequestDetails};
use frapi::states::main_page::selected_entity::SelectedEntity;
use frapi::states::main_page::{MainPage, RequestMoveTarget, RightPanel, RightPanelType};
use frapi::states::Events;

fn request(name: &str) -> Request {
    let mut request = Request::default();
    request.draft.name = name.to_string();
    request.original.name = name.to_string();
    request
}

fn collection(name: &str, requests: &[&str]) -> Collection {
    let mut collection = Collection::default();
    collection.draft.name = name.to_string();
    collection.original.name = name.to_string();
    for r in requests {
        collection.requests.push(request(r));
    }
    collection
}

/// root: r0, c1[a, b], c2[c], r3
fn page() -> MainPage {
    let entities = vec![
        Entity::REQUEST(request("r0")),
        Entity::COLLECTION(collection("c1", &["a", "b"])),
        Entity::COLLECTION(collection("c2", &["c"])),
        Entity::REQUEST(request("r3")),
    ];
    MainPage {
        filtered_entities: FilteredEntities::from(&entities),
        entities,
        selected_entity: SelectedEntity::new(),
        deletion_entity: SelectedEntity::new(),
        filter_text: String::new(),
        request_move_target: RequestMoveTarget::new(),
        right_panel: RightPanel::default(),
    }
}

fn shape(page: &MainPage) -> Vec<String> {
    page.entities
        .iter()
        .map(|e| match e {
            Entity::REQUEST(r) => r.draft.name.clone(),
            Entity::COLLECTION(c) => {
                let inner: Vec<String> = c.requests.iter().map(|r| r.draft.name.clone()).collect();
                format!("{}[{}]", c.draft.name, inner.join(","))
            }
        })
        .collect()
}

fn filtered(page: &MainPage) -> Vec<String> {
    page.filtered_entities
        .items
        .iter()
        .map(|e| match e {
            FilteredEntity::REQUEST { request_idx } => format!("r{}", request_idx),
            FilteredEntity::COLLECTION { collection_idx, request_idxs } => {
                format!("c{}{:?}", collection_idx, request_idxs)
            }
        })
        .collect()
}

#[test]
fn selection_is_told_by_its_two_indexes() {
    let mut selection = SelectedEntity::new();
    assert!(!selection.is_selected());
    assert!(!selection.collection_is_selected(0));
    assert!(!selection.request_is_selected(None, 0));

    selection.select_request(None, 3);
    assert!(selection.is_selected());
    assert!(selection.request_is_selected(None, 3));
    assert!(!selection.request_is_selected(None, 2));
    assert!(!selection.request_is_selected(Some(0), 3));
    assert!(!selection.collection_is_selected(3));

    selection.select_request(Some(1), 0);
    assert!(selection.request_is_selected(Some(1), 0));
    assert!(!selection.request_is_selected(Some(1), 1));
    assert!(!selection.request_is_selected(Some(2), 0));
    assert!(!selection.request_is_selected(None, 0));
    assert!(!selection.collection_is_selected(1));

    selection.select_collection(2);
    assert_eq!(selection.collection_idx, Some(2));
    assert_eq!(selection.request_idx, None);
    assert!(selection.collection_is_selected(2));
    assert!(!selection.collection_is_selected(1));
    assert!(selection.is_selected());

    selection.select_request(Some(2), 5);
    selection.unselect_collection();
    assert_eq!(selection.collection_idx, None);
    assert_eq!(selection.request_idx, Some(5));
    selection.unselect_request();
    assert!(!selection.is_selected());
}

#[test]
fn right_panel_toggles() {
    let mut panel = RightPanel::default();
    assert!(!panel.is_visible);
    assert_eq!(panel.panel_type, RightPanelType::EVENTS);
    panel.toggle();
    assert!(panel.is_visible);
    panel.toggle_events();
    assert!(!panel.is_visible);
    panel.toggle_events();
    assert!(panel.is_visible);
    assert_eq!(panel.panel_type, RightPanelType::EVENTS);
}

#[test]
fn planned_moves_are_taken_in_their_order() {
    let mut moves = RequestMoveTarget::new();
    assert!(!moves.move_planned());
    moves.add(Some(2));
    moves.add(None);
    moves.add(Some(0));
    assert!(moves.move_planned());
    assert_eq!(moves.take(), Some(2));
    assert_eq!(moves.take(), None);
    assert!(moves.move_planned());
    assert_eq!(moves.take(), Some(0));
    assert!(!moves.move_planned());
}

#[test]
fn filtered_entries_hold_indexes() {
    let mut entry = FilteredEntity::collection(4);
    entry.push_request(1);
    entry.push_request(3);
    match &entry {
        FilteredEntity::COLLECTION { collection_idx, request_idxs } => {
            assert_eq!(*collection_idx, 4);
            assert_eq!(request_idxs, &vec![1, 3]);
        }
        FilteredEntity::REQUEST { .. } => panic!("a collection entry"),
    }
    let mut single = FilteredEntity::request(9);
    single.push_request(1);
    assert!(matches!(single, FilteredEntity::REQUEST { request_idx: 9 }));
}

#[test]
fn filtered_list_adds_requests_where_the_collection_index_points() {
    let mut list = FilteredEntities::new();
    list.push_collection(5);
    list.push_request(7, None);
    // position 0 holds the collection with index 5
    list.push_request(1, Some(0));
    // position 1 holds a request: nothing is added
    list.push_request(2, Some(1));
    // no position 9: a new entry for collection 9
    list.push_request(3, Some(9));
    let items: Vec<String> = list
        .items
        .iter()
        .map(|e| match e {
            FilteredEntity::REQUEST { request_idx } => format!("r{}", request_idx),
            FilteredEntity::COLLECTION { collection_idx, request_idxs } => {
                format!("c{}{:?}", collection_idx, request_idxs)
            }
        })
        .collect();
    assert_eq!(items, vec!["c5[1]", "r7", "c9[3]"]);
    assert_eq!(list.root_entities_idxs(), vec![5, 7, 9]);
    assert_eq!(list.collection_requests_idxs(5), Some(vec![1]));
    assert_eq!(list.collection_requests_idxs(9), Some(vec![3]));
    assert_eq!(list.collection_requests_idxs(7), None);
    assert_eq!(list.collection_requests_idxs(0), None);
    let copy = list.clone();
    assert_eq!(copy.root_entities_idxs(), vec![5, 7, 9]);
}

#[test]
fn whole_tree_is_on_screen_without_a_filter() {
    let page = page();
    assert_eq!(filtered(&page), vec!["r0", "c1[0, 1]", "c2[0]", "r3"]);
    assert_eq!(page.filtered_entities.root_entities_idxs(), vec![0, 1, 2, 3]);
    assert_eq!(page.filtered_entities.collection_requests_idxs(1), Some(vec![0, 1]));
    assert_eq!(page.filtered_entities.collection_requests_idxs(0), None);
}

#[test]
fn entities_know_their_kind() {
    let page = page();
    assert!(page.entities[0].is_request());
    assert!(!page.entities[0].is_collection());
    assert!(page.entities[1].is_collection());
    assert!(page.root_entity_is_request(0));
    assert!(page.root_entity_is_collection(1));
    assert!(!page.root_entity_is_collection(0));
    assert!(!page.root_entity_is_request(4));
    assert!(!page.root_entity_is_collection(4));
}

#[test]
fn selected_entities_are_found() {
    let mut page = page();
    assert!(!page.is_request_selected());
    assert!(!page.is_collection_selected());
    assert!(page.selected_request().is_none());
    assert!(page.selected_collection().is_none());
    assert_eq!(page.get_selected_items_count(), 4);
    assert_eq!(page.selected_request_salt(), "None-None");
    assert_eq!(page.selected_request_executor_state(), "FREE");
    assert!(!page.entity_is_changed());

    page.selected_entity.select_request(Some(1), 1);
    assert!(page.is_request_selected());
    assert!(!page.is_collection_selected());
    assert_eq!(page.selected_request().unwrap().draft.name, "b");
    assert_eq!(page.selected_collection().unwrap().draft.name, "c1");
    assert_eq!(page.get_selected_items_count(), 1);
    assert_eq!(page.selected_request_salt(), "1-1");

    page.selected_entity.select_collection(2);
    assert!(page.is_collection_selected());
    assert!(page.selected_request().is_none());
    assert_eq!(page.selected_collection().unwrap().draft.name, "c2");
    assert_eq!(page.get_selected_items_count(), 1);
    assert_eq!(page.selected_request_salt(), "2-None");

    page.selected_entity.select_collection(1);
    assert_eq!(page.get_selected_items_count(), 2);

    page.selected_entity.select_request(None, 3);
    assert_eq!(page.selected_request().unwrap().draft.name, "r3");
    assert!(page.selected_collection().is_none());
    assert_eq!(page.selected_request_salt(), "None-3");

    // a request index that names a collection
    page.selected_entity.select_request(None, 1);
    assert!(page.selected_request().is_none());
    assert_eq!(page.get_selected_items_count(), 4);
    // a collection index that names a request
    page.selected_entity.select_collection(0);
    assert!(page.selected_collection().is_none());
    assert_eq!(page.get_selected_items_count(), 4);
}

#[test]
fn mutable_access_reaches_the_tree() {
    let mut page = page();
    page.selected_entity.select_request(Some(1), 0);
    page.selected_request_mut().unwrap().draft.name = "a2".to_string();
    page.selected_collection_mut().unwrap().draft.name = "c1x".to_string();
    page.selected_entity.select_request(None, 0);
    page.selected_request_mut().unwrap().draft.name = "r0x".to_string();
    assert!(page.selected_collection_mut().is_none());
    page.get_collection_mut(2).unwrap().is_folded = false;
    page.get_request_mut(3).unwrap().draft.name = "r3x".to_string();
    assert!(page.get_collection_mut(0).is_none());
    assert!(page.get_request_mut(1).is_none());
    assert!(page.get_collection_mut(4).is_none());
    assert!(page.get_request_mut(4).is_none());
    assert_eq!(shape(&page), vec!["r0x", "c1x[a2,b]", "c2[c]", "r3x"]);
    match &page.entities[2] {
        Entity::COLLECTION(c) => assert!(!c.is_folded),
        Entity::REQUEST(_) => panic!("a collection"),
    }
}

#[test]
fn marking_as_changed_marks_what_is_selected() {
    let mut page = page();
    page.selected_as_changed();
    page.selected_entity.select_request(Some(1), 1);
    assert!(!page.entity_is_changed());
    page.selected_as_changed();
    assert!(page.entity_is_changed());
    assert!(!page.selected_collection().unwrap().is_changed);
    assert!(!page.selected_collection().unwrap().requests[0].is_changed);

    page.selected_entity.select_collection(2);
    assert!(!page.entity_is_changed());
    page.selected_as_changed();
    assert!(page.entity_is_changed());

    page.selected_entity.select_request(None, 0);
    page.selected_as_changed();
    assert!(page.entity_is_changed());
    page.selected_entity.select_request(None, 3);
    assert!(!page.entity_is_changed());
}

#[test]
fn cancelling_gives_the_original_back() {
    let mut page = page();
    page.selected_entity.select_request(Some(1), 0);
    {
        let request = page.selected_request_mut().unwrap();
        request.draft.name = "edited".to_string();
        request.draft.uri = "edited.test".to_string();
        request.is_changed = true;
    }
    page.cancel_changes_of_selected_entity();
    assert_eq!(page.selected_request().unwrap().draft.name, "a");
    assert_eq!(page.selected_request().unwrap().draft.uri, "");
    assert!(!page.entity_is_changed());

    page.selected_entity.select_collection(1);
    {
        let collection = page.selected_collection_mut().unwrap();
        collection.draft.name = "edited".to_string();
        collection.draft.description = "d".to_string();
        collection.is_changed = true;
    }
    page.cancel_changes_of_selected_entity();
    assert_eq!(page.selected_collection().unwrap().draft.name, "c1");
    assert_eq!(page.selected_collection().unwrap().draft.description, "");
    assert!(!page.entity_is_changed());
    assert_eq!(shape(&page), vec!["r0", "c1[a,b]", "c2[c]", "r3"]);
}

#[test]
fn filter_keeps_what_passes() {
    let mut page = page();
    page.filter_text = "C".to_string();
    page.apply_filter();
    // c1 passes as entry 0; its requests do not. c2 passes as entry 1, and
    // its request "c" is added to the entry at position 2, which is not there:
    // a new entry for collection 2 joins the end.
    assert_eq!(filtered(&page), vec!["c1[]", "c2[]", "c2[0]"]);

    page.filter_text = "r3".to_string();
    page.apply_filter();
    assert_eq!(filtered(&page), vec!["r3"]);

    page.filter_text = "b".to_string();
    page.apply_filter();
    assert_eq!(filtered(&page), vec!["c1[1]"]);

    page.filter_text = "get".to_string();
    page.apply_filter();
    // every request passes by its method; requests of collection 1 go to
    // the entry at position 1, those of collection 2 to position 2
    assert_eq!(filtered(&page), vec!["r0", "c1[0, 1]", "c2[0]", "r3"]);

    page.filter_text = "nothing has this".to_string();
    page.apply_filter();
    assert_eq!(filtered(&page), Vec::<String>::new());

    page.drop_filter();
    assert_eq!(page.filter_text, "");
    assert_eq!(filtered(&page), vec!["r0", "c1[0, 1]", "c2[0]", "r3"]);
}

#[test]
fn requests_and_collections_pass_filters_by_their_texts() {
    let mut r = request("Fetch Users");
    r.draft.uri = "api.test/users".to_string();
    r.draft.protocol = Protocol::WSS;
    r.draft.body.raw.set("Some BODY".to_string());
    assert!(r.is_filtered(&"fetch".to_string()));
    assert!(r.is_filtered(&"USERS".to_string()));
    assert!(r.is_filtered(&"wss".to_string()));
    assert!(r.is_filtered(&"GET".to_string()));
    assert!(r.is_filtered(&"body".to_string()));
    assert!(r.is_filtered(&"".to_string()));
    assert!(!r.is_filtered(&"post".to_string()));
    assert!(!r.is_filtered(&"https".to_string()));

    let mut c = collection("My Collection", &[]);
    c.draft.description = "About Things".to_string();
    assert!(c.is_filtered(&"collection".to_string()));
    assert!(c.is_filtered(&"THINGS".to_string()));
    assert!(c.is_filtered(&"".to_string()));
    assert!(!c.is_filtered(&"request".to_string()));
}

#[test]
fn new_collection_goes_after_the_selected_collection() {
    let mut page = page();
    assert_eq!(page.new_collection(), 4);
    assert_eq!(shape(&page), vec!["r0", "c1[a,b]", "c2[c]", "r3", "New Collection[]"]);

    page.selected_entity.select_collection(1);
    assert_eq!(page.new_collection(), 2);
    assert_eq!(
        shape(&page),
        vec!["r0", "c1[a,b]", "New Collection[]", "c2[c]", "r3", "New Collection[]"]
    );

    page.selected_entity.select_request(Some(1), 0);
    assert_eq!(page.new_collection(), 6);
    page.selected_entity.select_request(None, 0);
    assert_eq!(page.new_collection(), 7);
    assert_eq!(page.entities.len(), 8);
    match &page.entities[7] {
        Entity::COLLECTION(c) => {
            assert!(c.is_folded);
            assert!(!c.is_changed);
            assert_eq!(c.original.name, "New Collection");
            assert_eq!(c.id.len(), 36);
        }
        Entity::REQUEST(_) => panic!("a collection"),
    }
}

#[test]
fn new_request_goes_by_the_selection() {
    let mut page = page();
    assert_eq!(page.new_request(), (None, 4));
    assert_eq!(shape(&page), vec!["r0", "c1[a,b]", "c2[c]", "r3", "New Request"]);

    page.selected_entity.select_request(None, 0);
    assert_eq!(page.new_request(), (None, 1));
    assert_eq!(shape(&page), vec!["r0", "New Request", "c1[a,b]", "c2[c]", "r3", "New Request"]);

    page.selected_entity.select_collection(2);
    assert_eq!(page.new_request(), (Some(2), 2));
    page.selected_entity.select_request(Some(2), 0);
    assert_eq!(page.new_request(), (Some(2), 1));
    assert_eq!(
        shape(&page),
        vec!["r0", "New Request", "c1[a,New Request,b,New Request]", "c2[c]", "r3", "New Request"]
    );

    // a collection index that names a request: the new one goes after it
    page.selected_entity.select_collection(0);
    assert_eq!(page.new_request(), (None, 1));
    page.selected_entity.select_request(Some(0), 7);
    assert_eq!(page.new_request(), (None, 1));
    assert_eq!(page.entities.len(), 8);
}

#[test]
fn new_request_is_free_and_unchanged() {
    let request = Request::default();
    let other = Request::default();
    assert_eq!(request.id.len(), 36);
    assert_ne!(request.id, other.id);
    assert!(!request.is_changed);
    assert!(request.executor_is_free());
    assert_eq!(request.executor.responses().len(), 0);
    assert_eq!(request.visible_details, RequestDetails::Header);
    assert_eq!(request.visible_body, RequestBodyDetails::Raw);
    assert_eq!(request.new_header.key, "");
    assert_eq!(request.draft.name, "New Request");
    assert_eq!(CollectionData::default().name, "New Collection");
}

#[test]
fn fold_state_is_set_on_collections_only() {
    let mut page = page();
    page.set_collection_fold_state(1, false);
    page.set_collection_fold_state(0, false);
    match &page.entities[1] {
        Entity::COLLECTION(c) => assert!(!c.is_folded),
        Entity::REQUEST(_) => panic!("a collection"),
    }
    page.set_collection_fold_state(1, true);
    match &page.entities[1] {
        Entity::COLLECTION(c) => assert!(c.is_folded),
        Entity::REQUEST(_) => panic!("a collection"),
    }
}

#[test]
fn moving_from_a_collection_to_another() {
    let mut page = page();
    page.filter_text = "a".to_string();
    page.selected_entity.select_request(Some(1), 0);
    page.move_selected_request_to_collection(Some(2));
    assert_eq!(shape(&page), vec!["r0", "c1[b]", "c2[c,a]", "r3"]);
    assert_eq!(page.selected_entity.collection_idx, Some(2));
    assert_eq!(page.selected_entity.request_idx, Some(1));
    assert_eq!(page.filter_text, "");
    assert_eq!(filtered(&page), vec!["r0", "c1[0]", "c2[0, 1]", "r3"]);
    match &page.entities[2] {
        Entity::COLLECTION(c) => assert!(!c.is_folded),
        Entity::REQUEST(_) => panic!("a collection"),
    }
}

#[test]
fn moving_from_a_collection_to_the_root() {
    let mut page = page();
    page.selected_entity.select_request(Some(1), 1);
    page.move_selected_request_to_collection(None);
    assert_eq!(shape(&page), vec!["r0", "c1[a]", "c2[c]", "r3", "b"]);
    assert_eq!(page.selected_entity.collection_idx, None);
    assert_eq!(page.selected_entity.request_idx, Some(4));
}

#[test]
fn moving_from_the_root_shifts_later_targets() {
    let mut page = page();
    page.selected_entity.select_request(None, 0);
    page.move_selected_request_to_collection(Some(2));
    assert_eq!(shape(&page), vec!["c1[a,b]", "c2[c,r0]", "r3"]);
    assert_eq!(page.selected_entity.collection_idx, Some(1));
    assert_eq!(page.selected_entity.request_idx, Some(1));

    let mut page = self::page();
    page.selected_entity.select_request(None, 3);
    page.move_selected_request_to_collection(Some(1));
    assert_eq!(shape(&page), vec!["r0", "c1[a,b,r3]", "c2[c]"]);
    assert_eq!(page.selected_entity.collection_idx, Some(1));
    assert_eq!(page.selected_entity.request_idx, Some(2));
}

#[test]
fn moves_that_have_nothing_to_do_change_nothing() {
    let mut page = page();
    page.filter_text = "kept".to_string();
    page.move_selected_request_to_collection(Some(1));
    page.selected_entity.select_collection(1);
    page.move_selected_request_to_collection(Some(2));
    page.selected_entity.select_request(None, 0);
    page.move_selected_request_to_collection(None);
    page.selected_entity.select_request(Some(1), 0);
    page.move_selected_request_to_collection(Some(1));
    assert_eq!(shape(&page), vec!["r0", "c1[a,b]", "c2[c]", "r3"]);
    assert_eq!(page.filter_text, "kept");
    assert_eq!(page.selected_entity.collection_idx, Some(1));
    assert_eq!(page.selected_entity.request_idx, Some(0));
}

#[test]
fn moving_to_a_request_loses_the_request() {
    let mut page = page();
    page.selected_entity.select_request(Some(1), 0);
    page.move_selected_request_to_collection(Some(3));
    assert_eq!(shape(&page), vec!["r0", "c1[b]", "c2[c]", "r3"]);
    assert_eq!(page.selected_entity.collection_idx, Some(1));
    assert_eq!(page.selected_entity.request_idx, Some(0));
}

#[test]
fn planned_move_is_carried_out_once() {
    let mut page = page();
    assert!(!page.update_request_move());
    page.selected_entity.select_request(Some(2), 0);
    page.request_move_target.add(Some(1));
    assert!(page.update_request_move());
    assert_eq!(shape(&page), vec!["r0", "c1[a,b,c]", "c2[]", "r3"]);
    assert!(!page.request_move_target.move_planned());
    assert!(!page.update_request_move());
}

#[test]
fn deleting_a_request_in_a_collection() {
    let mut page = page();
    page.filter_text = "x".to_string();
    page.selected_entity.select_request(Some(1), 0);
    page.deletion_entity.select_request(Some(1), 0);
    assert!(page.delete_marked_entity());
    assert_eq!(shape(&page), vec!["r0", "c1[b]", "c2[c]", "r3"]);
    assert!(!page.selected_entity.is_selected());
    assert!(!page.deletion_entity.is_selected());
    assert_eq!(page.filter_text, "");
    assert_eq!(filtered(&page), vec!["r0", "c1[0]", "c2[0]", "r3"]);
    assert!(!page.delete_marked_entity());
}

#[test]
fn deleting_keeps_another_selection() {
    let mut page = page();
    page.selected_entity.select_request(Some(1), 1);
    page.deletion_entity.select_request(Some(2), 0);
    assert!(page.delete_marked_entity());
    assert_eq!(shape(&page), vec!["r0", "c1[a,b]", "c2[]", "r3"]);
    assert_eq!(page.selected_entity.collection_idx, Some(1));
    assert_eq!(page.selected_entity.request_idx, Some(1));
}

#[test]
fn deleting_a_collection_and_a_root_request() {
    let mut page = page();
    page.selected_entity.select_collection(1);
    page.deletion_entity.select_collection(1);
    assert!(page.delete_marked_entity());
    assert_eq!(shape(&page), vec!["r0", "c2[c]", "r3"]);
    assert!(!page.selected_entity.is_selected());

    page.selected_entity.select_request(None, 2);
    page.deletion_entity.select_request(None, 2);
    assert!(page.delete_marked_entity());
    assert_eq!(shape(&page), vec!["r0", "c2[c]"]);
    assert!(!page.selected_entity.is_selected());
    assert!(!page.deletion_entity.is_selected());
}

#[test]
fn deleting_what_is_of_another_kind_does_nothing() {
    let mut page = page();
    page.deletion_entity.select_collection(0);
    assert!(!page.delete_marked_entity());
    page.deletion_entity.select_request(None, 1);
    assert!(!page.delete_marked_entity());
    page.deletion_entity.select_request(Some(3), 0);
    assert!(!page.delete_marked_entity());
    assert_eq!(shape(&page), vec!["r0", "c1[a,b]", "c2[c]", "r3"]);
    assert!(page.deletion_entity.is_selected());
}

#[test]
fn saving_and_cancelling_a_request() {
    let mut r = request("r");
    r.draft.name = "edited".to_string();
    r.on_save();
    assert_eq!(r.original.name, "r");
    r.is_changed = true;
    r.on_save();
    assert_eq!(r.original.name, "edited");
    assert!(!r.is_changed);
    r.draft.name = "again".to_string();
    r.is_changed = true;
    r.cancel_changes();
    assert_eq!(r.draft.name, "edited");
    assert!(!r.is_changed);
    r.details_to_body();
    assert_eq!(r.visible_details, RequestDetails::Body);
    r.details_to_header();
    assert_eq!(r.visible_details, RequestDetails::Header);

    let mut c = collection("c", &["x"]);
    c.draft.name = "edited".to_string();
    c.on_save();
    assert_eq!(c.original.name, "c");
    c.is_changed = true;
    c.on_save();
    assert_eq!(c.original.name, "edited");
    c.draft.description = "d".to_string();
    c.cancel_changes();
    assert_eq!(c.draft.description, "");
    assert_eq!(c.requests.len(), 1);
    let mut data = CollectionData::default();
    data.copy_from_other(&c.draft);
    assert_eq!(data.name, "edited");
}

#[test]
fn a_request_fires_the_body_that_is_on_screen() {
    let mut r = request("r");
    let mut events = Events::new();
    r.draft.protocol = Protocol::HTTPS;
    r.draft.uri = "example.test".to_string();
    r.draft.body.raw.set("raw body".to_string());
    r.visible_body = RequestBodyDetails::FormData;
    match r.go(&mut events, false) {
        Activation::HTTP(command) => {
            assert_eq!(command.body, "");
            assert_eq!(command.uri, "example.test");
        }
        other => panic!("expected an HTTP exchange, got {:?}", other),
    }
    assert!(!r.executor_is_free());
    assert_eq!(r.executor.current_state(), State::BUSY);
    assert_eq!(r.draft.body.raw.message, "raw body");
    r.termiate();
    r.executor.http_thread(frapi::executor::session::HttpEvent::COMMAND, &mut events);
    assert!(r.executor_is_free());

    r.visible_body = RequestBodyDetails::Raw;
    match r.go(&mut events, false) {
        Activation::HTTP(command) => assert_eq!(command.body, "raw body"),
        other => panic!("expected an HTTP exchange, got {:?}", other),
    }
}

#[test]
fn a_request_reads_its_url_and_tidies_its_message() {
    let mut r = request("r");
    r.draft.uri = "WS://Host/path?x=1".to_string();
    r.parse_url();
    assert_eq!(r.draft.protocol, Protocol::WS);
    assert_eq!(r.draft.uri, "host/path?x=1");
    assert_eq!(r.draft.query_params.len(), 1);

    r.draft.message.set("{\"a\":[1,2]}".to_string());
    r.prettier_ws_message();
    assert_eq!(r.draft.message.message, "{\n  \"a\": [\n    1,\n    2\n  ]\n}");
    assert_eq!(r.draft.message.rows, 6);
    r.draft.message.set("not json".to_string());
    r.prettier_ws_message();
    assert_eq!(r.draft.message.message, "not json");
    assert_eq!(r.draft.message.rows, 1);
}

#[test]
fn selections_are_checked_against_the_tree() {
    let page = page();
    let at = |collection_idx, request_idx| SelectedEntity { collection_idx, request_idx };
    for (selection, in_range, valid) in [
        (at(None, None), true, true),
        (at(None, Some(0)), true, true),
        (at(None, Some(1)), true, false),
        (at(None, Some(3)), true, true),
        (at(None, Some(4)), false, false),
        (at(Some(1), None), true, true),
        (at(Some(0), None), true, false),
        (at(Some(4), None), false, false),
        (at(Some(1), Some(1)), true, true),
        (at(Some(1), Some(2)), false, false),
        (at(Some(2), Some(0)), true, true),
        (at(Some(2), Some(1)), false, false),
        (at(Some(0), Some(9)), true, false),
        (at(Some(7), Some(0)), false, false),
    ] {
        assert_eq!(page.selection_is_in_range(&selection), in_range, "{:?}", selection);
        assert_eq!(page.selection_is_valid(&selection), valid, "{:?}", selection);
    }
}

#[test]
fn moves_are_checked_against_the_tree() {
    let mut page = page();
    // nothing selected, or nothing to do: every target is fine
    assert!(page.move_is_in_range(Some(99)));
    page.selected_entity.select_collection(1);
    assert!(page.move_is_in_range(Some(99)));
    page.selected_entity.select_request(None, 0);
    assert!(page.move_is_in_range(None));
    page.selected_entity.select_request(Some(1), 0);
    assert!(page.move_is_in_range(Some(1)));

    // from a collection: the tree keeps its length
    assert!(page.move_is_in_range(None));
    assert!(page.move_is_in_range(Some(0)));
    assert!(page.move_is_in_range(Some(3)));
    assert!(!page.move_is_in_range(Some(4)));
    page.selected_entity.select_request(Some(1), 2);
    assert!(!page.move_is_in_range(Some(2)));
    page.selected_entity.select_request(Some(9), 0);
    assert!(!page.move_is_in_range(Some(2)));

    // from the root: the tree is one shorter, later targets shift
    page.selected_entity.select_request(None, 0);
    assert!(page.move_is_in_range(Some(1)));
    assert!(page.move_is_in_range(Some(3)));
    assert!(!page.move_is_in_range(Some(4)));
    page.selected_entity.select_request(None, 3);
    assert!(page.move_is_in_range(Some(2)));
    assert!(!page.move_is_in_range(Some(3)));
    page.selected_entity.select_request(None, 4);
    assert!(!page.move_is_in_range(Some(1)));

    // a collection taken for a request: it leaves the root and is dropped
    page.selected_entity.select_request(None, 1);
    assert!(page.move_is_in_range(Some(99)));
}

#[test]
fn the_next_planned_move_can_be_looked_at() {
    let mut moves = RequestMoveTarget::new();
    assert_eq!(moves.peek(), None);
    moves.add(None);
    moves.add(Some(3));
    assert_eq!(moves.peek(), Some(None));
    assert_eq!(moves.take(), None);
    assert_eq!(moves.peek(), Some(Some(3)));
    let copy = moves.clone();
    assert_eq!(copy.peek(), Some(Some(3)));
}

#[test]
fn a_tidy_message_replaces_the_message() {
    let mut r = request("r");
    r.draft.message.set("{}".to_string());
    r.set_tidy_message(None);
    assert_eq!(r.draft.message.message, "{}");
    assert_eq!(r.draft.message.rows, 1);
    r.set_tidy_message(Some("a\nb\nc".to_string()));
    assert_eq!(r.draft.message.message, "a\nb\nc");
    assert_eq!(r.draft.message.rows, 3);
}
