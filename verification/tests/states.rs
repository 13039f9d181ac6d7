use frapi::states::main_page::collection::Collection;
use frapi::states::main_page::entity::Entity;
use frapi::states::main_page::filtered_entity::FilteredEntities;
use frapi::states::main_page::request::Request;
use frapi::states::main_page::selected_entity::SelectedEntity;
use frapi::states::main_page::{MainPage, RequestMoveTarget, RightPanel};
use frapi::states::{Event, EventKind, Events, Page, SavedBackup, States};

fn request(name: &str) -> Request {
    let mut request = Request::default();
    request.draft.name = name.to_string();
    request.original.name = name.to_string();
    request
}

fn states() -> States {
    let mut collection = Collection::default();
    collection.draft.name = "c".to_string();
    collection.original.name = "c".to_string();
    collection.requests.push(request("a"));
    let entities = vec![Entity::REQUEST(request("r")), Entity::COLLECTION(collection)];
    States {
        current_page: Page::MAIN,
        main_page: MainPage {
            filtered_entities: FilteredEntities::from(&entities),
            entities,
            selected_entity: SelectedEntity::new(),
            deletion_entity: SelectedEntity::new(),
            filter_text: String::new(),
            request_move_target: RequestMoveTarget::new(),
            right_panel: RightPanel::default(),
        },
        events: Events::new(),
    }
}

fn root_request(states: &States, at: usize) -> &Request {
    match &states.main_page.entities[at] {
        Entity::REQUEST(request) => request,
        Entity::COLLECTION(_) => panic!("a request"),
    }
}

fn root_collection(states: &States, at: usize) -> &Collection {
    match &states.main_page.entities[at] {
        Entity::COLLECTION(collection) => collection,
        Entity::REQUEST(_) => panic!("a collection"),
    }
}

#[test]
fn events_are_kept_in_their_order() {
    let mut events = Events::new();
    assert_eq!(events.len(), 0);
    let before = chrono::Local::now().timestamp_millis();
    events.event_info(&"one".to_string());
    events.event_warning(&"two".to_string());
    events.event_error(&"three".to_string());
    events.record(EventKind::Info, &"four".to_string(), 44);
    let after = chrono::Local::now().timestamp_millis();
    assert_eq!(events.len(), 4);
    assert!(matches!(events.get(0), Event::Info(_)));
    assert!(matches!(events.get(1), Event::Warning(_)));
    assert!(matches!(events.get(2), Event::Error(_)));
    assert_eq!(events.get(0).get_data().message, "one");
    assert_eq!(events.get(1).get_data().message, "two");
    assert_eq!(events.get(2).get_data().message, "three");
    assert_eq!(events.get(2).kind(), EventKind::Error);
    assert_eq!(events.get(3).get_data().timestamp, 44);
    for i in 0..3 {
        let at = events.get(i).get_data().timestamp;
        assert!(before <= at && at <= after);
    }
    let copy = events.get(1).clone();
    assert_eq!(copy.get_data().message, "two");
    events.clear_events();
    assert_eq!(events.len(), 0);
}

#[test]
fn single_events_carry_kind_text_and_time() {
    let info = Event::info(&"i".to_string());
    let warning = Event::warning(&"w".to_string());
    let error = Event::error(&"e".to_string());
    assert_eq!(info.kind(), EventKind::Info);
    assert_eq!(warning.kind(), EventKind::Warning);
    assert_eq!(error.kind(), EventKind::Error);
    assert_eq!(error.get_data().message, "e");
    let at = Event::at(EventKind::Warning, &"x".to_string(), -5);
    assert_eq!(at.kind(), EventKind::Warning);
    assert_eq!(at.get_data().timestamp, -5);
    assert_eq!(at.get_data().message, "x");
}

#[test]
fn states_log_events() {
    let mut states = states();
    states.event_info(&"i".to_string());
    states.event_warning(&"w".to_string());
    states.event_error(&"e".to_string());
    assert_eq!(states.events_count(), 3);
    assert_eq!(states.events.get(1).kind(), EventKind::Warning);
    assert_eq!(states.events.get(2).get_data().message, "e");
    states.clear_events();
    assert_eq!(states.events_count(), 0);
}

#[test]
fn save_complete_makes_changed_drafts_the_originals() {
    let mut states = states();
    if let Entity::REQUEST(request) = &mut states.main_page.entities[0] {
        request.draft.name = "r edited".to_string();
        request.is_changed = true;
    }
    if let Entity::COLLECTION(collection) = &mut states.main_page.entities[1] {
        collection.draft.name = "c edited".to_string();
        collection.requests[0].draft.name = "a edited".to_string();
        collection.requests[0].is_changed = true;
    }
    states.on_save_complete();
    assert_eq!(root_request(&states, 0).original.name, "r edited");
    assert!(!root_request(&states, 0).is_changed);
    // the collection was not marked as changed, and its requests are left
    assert_eq!(root_collection(&states, 1).original.name, "c");
    assert_eq!(root_collection(&states, 1).requests[0].original.name, "a");
    assert!(root_collection(&states, 1).requests[0].is_changed);
}

#[test]
fn update_moves_then_deletes() {
    let mut states = states();
    assert!(!states.update());
    states.main_page.selected_entity.select_request(None, 0);
    states.main_page.request_move_target.add(Some(1));
    assert!(states.update());
    assert_eq!(states.main_page.entities.len(), 1);
    assert_eq!(root_collection(&states, 0).requests.len(), 2);
    assert_eq!(root_collection(&states, 0).requests[1].draft.name, "r");
    assert_eq!(states.main_page.selected_entity.collection_idx, Some(0));
    assert_eq!(states.main_page.selected_entity.request_idx, Some(1));

    states.main_page.deletion_entity.select_request(Some(0), 0);
    assert!(!states.update());
    assert_eq!(root_collection(&states, 0).requests.len(), 1);
    assert_eq!(root_collection(&states, 0).requests[0].draft.name, "r");
}

#[test]
fn saving_the_selected_request_and_failing_puts_the_original_back() {
    let mut states = states();
    states.main_page.selected_entity.select_request(Some(1), 0);
    {
        let request = states.main_page.selected_request_mut().unwrap();
        request.draft.name = "a edited".to_string();
        request.is_changed = true;
    }
    let backup = states.save_selected_begin();
    assert!(matches!(&backup, SavedBackup::REQUEST(data) if data.name == "a"));
    assert_eq!(root_collection(&states, 1).requests[0].original.name, "a edited");
    assert!(!root_collection(&states, 1).requests[0].is_changed);

    states.save_selected_end(backup, Err("disk full".to_string()));
    assert_eq!(root_collection(&states, 1).requests[0].original.name, "a");
    assert_eq!(root_collection(&states, 1).requests[0].draft.name, "a edited");
    assert!(root_collection(&states, 1).requests[0].is_changed);
    assert_eq!(states.events_count(), 1);
    assert_eq!(states.events.get(0).kind(), EventKind::Error);
    assert_eq!(
        states.events.get(0).get_data().message,
        "Could not save selected request. Error: disk full"
    );
}

#[test]
fn saving_the_selected_request_and_succeeding_is_noted() {
    let mut states = states();
    states.main_page.selected_entity.select_request(None, 0);
    states.main_page.selected_request_mut().unwrap().draft.name = "r edited".to_string();
    states.main_page.selected_as_changed();
    let backup = states.save_selected_begin();
    states.save_selected_end_at(backup, Ok(()), 99);
    assert_eq!(root_request(&states, 0).original.name, "r edited");
    assert!(!root_request(&states, 0).is_changed);
    assert_eq!(states.events.get(0).kind(), EventKind::Info);
    assert_eq!(states.events.get(0).get_data().timestamp, 99);
    assert_eq!(
        states.events.get(0).get_data().message,
        "Settings [selected] save complete successful"
    );
}

#[test]
fn saving_the_selected_collection() {
    let mut states = states();
    states.main_page.selected_entity.select_collection(1);
    {
        let collection = states.main_page.selected_collection_mut().unwrap();
        collection.draft.name = "c edited".to_string();
        collection.is_changed = true;
    }
    let backup = states.save_selected_begin();
    assert!(matches!(&backup, SavedBackup::COLLECTION(data) if data.name == "c"));
    assert_eq!(root_collection(&states, 1).original.name, "c edited");
    states.save_selected_end(backup, Err("denied".to_string()));
    assert_eq!(root_collection(&states, 1).original.name, "c");
    assert!(root_collection(&states, 1).is_changed);
    assert_eq!(
        states.events.get(0).get_data().message,
        "Could not save selected collection. Error: denied"
    );

    let backup = states.save_selected_begin();
    states.save_selected_end(backup, Ok(()));
    assert_eq!(root_collection(&states, 1).original.name, "c edited");
    assert_eq!(
        states.events.get(1).get_data().message,
        "Settings save complete successful for selected collection"
    );
}

#[test]
fn saving_with_nothing_selected_does_nothing() {
    let mut states = states();
    let backup = states.save_selected_begin();
    assert!(matches!(backup, SavedBackup::NONE));
    states.save_selected_end(backup, Err("unused".to_string()));
    assert_eq!(states.events_count(), 0);
}
