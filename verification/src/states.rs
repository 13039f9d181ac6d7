//! The state the application works on while it runs.

use vstd::prelude::*;
use crate::clock;
use crate::states::main_page::collection::{
    saved_collection,
    CollectionData,
    CollectionDataModel,
    CollectionModel,
};
use crate::states::main_page::entity::{Entity, EntityModel};
use crate::states::main_page::request::request_data::{RequestData, RequestDataModel};
use crate::states::main_page::request::{saved_request, RequestModel};
use crate::states::main_page::{
    collection_at,
    move_in_range,
    request_at,
    selection_in_range,
    spec_delete,
    spec_move,
    with_selected_request,
    MainPage,
    MainPageModel,
};

pub mod main_page;

verus! {

/// The pages of the application.
#[derive(Clone, Copy, Debug, PartialEq, Eq, Structural)]
pub enum Page {
    MAIN,
}

/// How grave an event is.
#[derive(Clone, Copy, Debug, PartialEq, Eq, Structural)]
pub enum EventKind {
    Info,
    Warning,
    Error,
}

/// What an event says and when it was noted, in milliseconds since the Unix
/// epoch.
#[derive(Debug)]
pub struct EventData {
    pub message: String,
    pub timestamp: i64,
}

/// Something worth telling the user.
#[derive(Debug)]
pub enum Event {
    Info(EventData),
    Warning(EventData),
    Error(EventData),
}

/// An event as a value: its kind, its text and its time.
pub struct EventModel {
    pub kind: EventKind,
    pub message: Seq<char>,
    pub timestamp: i64,
}

/// The log with one more event.
pub open spec fn logged(log: Seq<EventModel>, kind: EventKind, message: Seq<char>, now: i64) -> Seq<
    EventModel,
> {
    log.push(EventModel { kind, message, timestamp: now })
}

impl View for Event {
    type V = EventModel;

    open spec fn view(&self) -> EventModel {
        match *self {
            Event::Info(data) => EventModel {
                kind: EventKind::Info,
                message: data.message@,
                timestamp: data.timestamp,
            },
            Event::Warning(data) => EventModel {
                kind: EventKind::Warning,
                message: data.message@,
                timestamp: data.timestamp,
            },
            Event::Error(data) => EventModel {
                kind: EventKind::Error,
                message: data.message@,
                timestamp: data.timestamp,
            },
        }
    }
}

impl DeepView for Event {
    type V = EventModel;

    open spec fn deep_view(&self) -> EventModel {
        self@
    }
}

impl Clone for EventData {
    fn clone(&self) -> (r: Self)
        ensures
            r == *self,
    {
        EventData { message: self.message.clone(), timestamp: self.timestamp }
    }
}

impl Clone for Event {
    fn clone(&self) -> (r: Self)
        ensures
            r == *self,
    {
        match self {
            Event::Info(data) => Event::Info(data.clone()),
            Event::Warning(data) => Event::Warning(data.clone()),
            Event::Error(data) => Event::Error(data.clone()),
        }
    }
}

impl Event {
    /// An event of the given kind with the given text and time.
    pub fn at(kind: EventKind, msg: &String, timestamp: i64) -> (r: Self)
        ensures
            r@ == (EventModel { kind, message: msg@, timestamp }),
    {
        let data = EventData { message: msg.clone(), timestamp };
        match kind {
            EventKind::Info => Event::Info(data),
            EventKind::Warning => Event::Warning(data),
            EventKind::Error => Event::Error(data),
        }
    }

    /// A piece of information, noted now.
    pub fn info(msg: &String) -> (r: Self)
        ensures
            r@.kind == EventKind::Info,
            r@.message == msg@,
    {
        Event::at(EventKind::Info, msg, clock::now_millis())
    }

    /// A warning, noted now.
    pub fn warning(msg: &String) -> (r: Self)
        ensures
            r@.kind == EventKind::Warning,
            r@.message == msg@,
    {
        Event::at(EventKind::Warning, msg, clock::now_millis())
    }

    /// An error, noted now.
    pub fn error(msg: &String) -> (r: Self)
        ensures
            r@.kind == EventKind::Error,
            r@.message == msg@,
    {
        Event::at(EventKind::Error, msg, clock::now_millis())
    }

    /// The text and time of the event, whatever its kind.
    pub fn get_data(&self) -> (r: &EventData)
        ensures
            r.message@ == self@.message,
            r.timestamp == self@.timestamp,
    {
        match self {
            Event::Info(event_data) => event_data,
            Event::Warning(event_data) => event_data,
            Event::Error(event_data) => event_data,
        }
    }

    /// The kind of the event.
    pub fn kind(&self) -> (r: EventKind)
        ensures
            r == self@.kind,
    {
        match self {
            Event::Info(_) => EventKind::Info,
            Event::Warning(_) => EventKind::Warning,
            Event::Error(_) => EventKind::Error,
        }
    }
}

/// The log of events, oldest first.
#[derive(Debug)]
pub struct Events {
    items: Vec<Event>,
}

impl View for Events {
    type V = Seq<EventModel>;

    closed spec fn view(&self) -> Seq<EventModel> {
        self.items.deep_view()
    }
}

impl Events {
    /// An empty log.
    pub fn new() -> (r: Self)
        ensures
            r@ == Seq::<EventModel>::empty(),
    {
        let r = Events { items: Vec::new() };
        assert(r.items.deep_view() =~= Seq::<EventModel>::empty());
        r
    }

    /// Appends an event of the given kind, text and time.
    pub fn record(&mut self, kind: EventKind, msg: &String, timestamp: i64)
        ensures
            final(self)@ == logged(old(self)@, kind, msg@, timestamp),
    {
        let event = Event::at(kind, msg, timestamp);
        self.items.push(event);
        assert(self.items.deep_view() =~= old(self).items.deep_view().push(event@));
    }

    /// Appends a piece of information, noted now.
    pub fn event_info(&mut self, msg: &String)
        ensures
            exists|timestamp: i64|
                final(self)@ == #[trigger] logged(old(self)@, EventKind::Info, msg@, timestamp),
    {
        self.record(EventKind::Info, msg, clock::now_millis());
    }

    /// Appends a warning, noted now.
    pub fn event_warning(&mut self, msg: &String)
        ensures
            exists|timestamp: i64|
                final(self)@ == #[trigger] logged(old(self)@, EventKind::Warning, msg@, timestamp),
    {
        self.record(EventKind::Warning, msg, clock::now_millis());
    }

    /// Appends an error, noted now.
    pub fn event_error(&mut self, msg: &String)
        ensures
            exists|timestamp: i64|
                final(self)@ == #[trigger] logged(old(self)@, EventKind::Error, msg@, timestamp),
    {
        self.record(EventKind::Error, msg, clock::now_millis());
    }

    /// Empties the log.
    pub fn clear_events(&mut self)
        ensures
            final(self)@ == Seq::<EventModel>::empty(),
    {
        self.items.clear();
        assert(self.items.deep_view() =~= Seq::<EventModel>::empty());
    }

    /// How many events the log holds.
    pub fn len(&self) -> (r: usize)
        ensures
            r == self@.len(),
    {
        self.items.len()
    }

    /// The event at a position of the log.
    pub fn get(&self, i: usize) -> (r: &Event)
        requires
            i < self@.len(),
        ensures
            r@ == self@[i as int],
    {
        &self.items[i]
    }
}

/// What a save of the selected entity has put aside, to put it back
/// should the save fail: the data that was the original before.
#[derive(Debug)]
pub enum SavedBackup {
    /// Nothing is selected, so nothing was saved.
    NONE,
    /// The original of the selected request.
    REQUEST(RequestData),
    /// The original of the selected collection.
    COLLECTION(CollectionData),
}

/// A backup as a value.
pub enum SavedBackupModel {
    NONE,
    REQUEST(RequestDataModel),
    COLLECTION(CollectionDataModel),
}

impl View for SavedBackup {
    type V = SavedBackupModel;

    open spec fn view(&self) -> SavedBackupModel {
        match *self {
            SavedBackup::NONE => SavedBackupModel::NONE,
            SavedBackup::REQUEST(data) => SavedBackupModel::REQUEST(data@),
            SavedBackup::COLLECTION(data) => SavedBackupModel::COLLECTION(data@),
        }
    }
}

/// The state of the application: the page on screen, the main page and the
/// log of events.
#[derive(Debug)]
pub struct States {
    pub current_page: Page,
    pub main_page: MainPage,
    pub events: Events,
}

/// The state of the application as a value.
pub struct StatesModel {
    pub current_page: Page,
    pub main_page: MainPageModel,
    pub events: Seq<EventModel>,
}

impl View for States {
    type V = StatesModel;

    open spec fn view(&self) -> StatesModel {
        StatesModel {
            current_page: self.current_page,
            main_page: self.main_page@,
            events: self.events@,
        }
    }
}

/// An entity of the root after a save: its changed draft has become its
/// original. The requests in a collection are left as they are.
pub open spec fn saved_entity(entity: EntityModel) -> EntityModel {
    match entity {
        EntityModel::COLLECTION(collection) => EntityModel::COLLECTION(
            saved_collection(collection),
        ),
        EntityModel::REQUEST(request) => EntityModel::REQUEST(saved_request(request)),
    }
}

/// The tree with the selected collection replaced.
pub open spec fn with_selected_collection(
    entities: Seq<EntityModel>,
    index: Option<usize>,
    collection: CollectionModel,
) -> Seq<EntityModel> {
    match index {
        Some(c) => entities.update(c as int, EntityModel::COLLECTION(collection)),
        None => entities,
    }
}

/// What starting a save of the selected entity makes of the tree, and what
/// it puts aside. The selected request is saved, where there is one; else
/// the selected collection.
pub open spec fn save_begun(page: MainPageModel) -> (Seq<EntityModel>, SavedBackupModel) {
    match request_at(page.entities, page.selected_entity) {
        Some(request) => (
            with_selected_request(page.entities, page.selected_entity, saved_request(request)),
            SavedBackupModel::REQUEST(request.original),
        ),
        None => match collection_at(page.entities, page.selected_entity) {
            Some(collection) => (
                with_selected_collection(
                    page.entities,
                    page.selected_entity.collection_idx,
                    saved_collection(collection),
                ),
                SavedBackupModel::COLLECTION(collection.original),
            ),
            None => (page.entities, SavedBackupModel::NONE),
        },
    }
}

/// What a failed save of the selected entity makes of the tree: what was
/// put aside is the original again, and the entity counts as changed.
pub open spec fn save_undone(page: MainPageModel, backup: SavedBackupModel) -> Seq<EntityModel> {
    match backup {
        SavedBackupModel::REQUEST(original) => match request_at(
            page.entities,
            page.selected_entity,
        ) {
            Some(request) => with_selected_request(
                page.entities,
                page.selected_entity,
                RequestModel {
                    is_changed: true,
                    original: RequestDataModel {
                        query_params: request.original.query_params,
                        setup: request.original.setup,
                        ..original
                    },
                    ..request
                },
            ),
            None => page.entities,
        },
        SavedBackupModel::COLLECTION(original) => match collection_at(
            page.entities,
            page.selected_entity,
        ) {
            Some(collection) => with_selected_collection(
                page.entities,
                page.selected_entity.collection_idx,
                CollectionModel { is_changed: true, original, ..collection },
            ),
            None => page.entities,
        },
        SavedBackupModel::NONE => page.entities,
    }
}

/// What the end of a save of the selected entity writes to the event log.
pub open spec fn save_selected_log(
    backup: SavedBackupModel,
    outcome: Result<(), Seq<char>>,
    log: Seq<EventModel>,
    now: i64,
) -> Seq<EventModel> {
    match backup {
        SavedBackupModel::REQUEST(_) => match outcome {
            Ok(_) => logged(
                log,
                EventKind::Info,
                "Settings [selected] save complete successful"@,
                now,
            ),
            Err(why) => logged(
                log,
                EventKind::Error,
                "Could not save selected request. Error: "@ + why,
                now,
            ),
        },
        SavedBackupModel::COLLECTION(_) => match outcome {
            Ok(_) => logged(
                log,
                EventKind::Info,
                "Settings save complete successful for selected collection"@,
                now,
            ),
            Err(why) => logged(
                log,
                EventKind::Error,
                "Could not save selected collection. Error: "@ + why,
                now,
            ),
        },
        SavedBackupModel::NONE => log,
    }
}

/// The view of the outcome of a save.
pub open spec fn save_outcome_view(outcome: Result<(), String>) -> Result<(), Seq<char>> {
    match outcome {
        Ok(_) => Ok(()),
        Err(why) => Err(why@),
    }
}

impl States {
    /// Notes a piece of information in the log.
    pub fn event_info(&mut self, msg: &String)
        ensures
            exists|timestamp: i64|
                final(self)@ == (StatesModel {
                    events: #[trigger] logged(
                        old(self)@.events,
                        EventKind::Info,
                        msg@,
                        timestamp,
                    ),
                    ..old(self)@
                }),
    {
        let now = clock::now_millis();
        self.events.record(EventKind::Info, msg, now);
        assert(self@ == (StatesModel {
            events: logged(old(self)@.events, EventKind::Info, msg@, now),
            ..old(self)@
        }));
    }

    /// Notes a warning in the log.
    pub fn event_warning(&mut self, msg: &String)
        ensures
            exists|timestamp: i64|
                final(self)@ == (StatesModel {
                    events: #[trigger] logged(
                        old(self)@.events,
                        EventKind::Warning,
                        msg@,
                        timestamp,
                    ),
                    ..old(self)@
                }),
    {
        let now = clock::now_millis();
        self.events.record(EventKind::Warning, msg, now);
        assert(self@ == (StatesModel {
            events: logged(old(self)@.events, EventKind::Warning, msg@, now),
            ..old(self)@
        }));
    }

    /// Notes an error in the log.
    pub fn event_error(&mut self, msg: &String)
        ensures
            exists|timestamp: i64|
                final(self)@ == (StatesModel {
                    events: #[trigger] logged(
                        old(self)@.events,
                        EventKind::Error,
                        msg@,
                        timestamp,
                    ),
                    ..old(self)@
                }),
    {
        let now = clock::now_millis();
        self.events.record(EventKind::Error, msg, now);
        assert(self@ == (StatesModel {
            events: logged(old(self)@.events, EventKind::Error, msg@, now),
            ..old(self)@
        }));
    }

    /// Empties the log.
    pub fn clear_events(&mut self)
        ensures
            final(self)@ == (StatesModel { events: Seq::empty(), ..old(self)@ }),
    {
        self.events.clear_events();
    }

    /// How many events the log holds.
    pub fn events_count(&self) -> (r: usize)
        ensures
            r == self@.events.len(),
    {
        self.events.len()
    }

    /// Takes note that everything was saved: of every entity at the root,
    /// the changed draft becomes the original.
    pub fn on_save_complete(&mut self)
        ensures
            final(self)@ == (StatesModel {
                main_page: MainPageModel {
                    entities: old(self)@.main_page.entities.map_values(
                        |entity: EntityModel| saved_entity(entity),
                    ),
                    ..old(self)@.main_page
                },
                ..old(self)@
            }),
    {
        let ghost start = self.main_page.entities.deep_view();
        let mut i: usize = 0;
        while i < self.main_page.entities.len()
            invariant
                i <= self.main_page.entities.len(),
                self.main_page.entities@.len() == start.len(),
                self.current_page == old(self).current_page,
                self.events == old(self).events,
                self.main_page@ == (MainPageModel {
                    entities: self.main_page@.entities,
                    ..old(self)@.main_page
                }),
                forall|k: int| 0 <= k < i ==> self.main_page.entities@[k]@ == saved_entity(start[k]),
                forall|k: int| i <= k < start.len() ==> self.main_page.entities@[k]@ == start[k],
            decreases self.main_page.entities.len() - i,
        {
            match &mut self.main_page.entities[i] {
                Entity::COLLECTION(collection) => collection.on_save(),
                Entity::REQUEST(request) => request.on_save(),
            }
            i += 1;
        }
        assert(self.main_page.entities.deep_view() =~= start.map_values(
            |entity: EntityModel| saved_entity(entity),
        ));
    }

    /// Carries out what was planned for the end of the frame: the move of
    /// the selected request that was planned first, then the deletion of
    /// the marked entity. Tells whether a move was carried out, after which
    /// the tree is to be stored.
    pub fn update(&mut self) -> (r: bool)
        requires
            old(self)@.main_page.request_move_target.len() > 0 ==> move_in_range(
                old(self)@.main_page,
                old(self)@.main_page.request_move_target[0],
            ),
            selection_in_range(
                moves_done(old(self)@.main_page).entities,
                old(self)@.main_page.deletion_entity,
            ),
        ensures
            r == (old(self)@.main_page.request_move_target.len() > 0),
            final(self)@ == (StatesModel {
                main_page: spec_delete(moves_done(old(self)@.main_page)),
                ..old(self)@
            }),
    {
        let move_done = self.main_page.update_request_move();
        let _ = self.main_page.delete_marked_entity();
        move_done
    }

    /// Starts a save of the selected entity: its changed draft becomes its
    /// original. Hands out what was the original before, to end the save
    /// with.
    pub fn save_selected_begin(&mut self) -> (r: SavedBackup)
        requires
            selection_in_range(old(self)@.main_page.entities, old(self)@.main_page.selected_entity),
        ensures
            (final(self)@.main_page.entities, r@) == save_begun(old(self)@.main_page),
            final(self)@ == (StatesModel {
                main_page: MainPageModel {
                    entities: final(self)@.main_page.entities,
                    ..old(self)@.main_page
                },
                ..old(self)@
            }),
    {
        let ghost page = *self;
        match self.main_page.selected_request_mut() {
            Some(request) => {
                let backup_original_data = request.original.clone();
                request.on_save();
                proof {
                    crate::states::main_page::lemma_selected_request_replaced_view(
                        page.main_page,
                        self.main_page,
                        *request,
                    );
                }
                return SavedBackup::REQUEST(backup_original_data);
            },
            None => {},
        }
        assert(self.main_page.entities.deep_view() =~= page.main_page.entities.deep_view());
        let ghost middle = *self;
        match self.main_page.selected_collection_mut() {
            Some(collection) => {
                let backup_original_data = collection.original.clone();
                collection.on_save();
                proof {
                    crate::states::main_page::lemma_entity_replaced_view(
                        middle.main_page,
                        self.main_page,
                        middle.main_page.selected_entity.collection_idx->0 as int,
                        Entity::COLLECTION(*collection),
                    );
                }
                return SavedBackup::COLLECTION(backup_original_data);
            },
            None => {},
        }
        assert(self.main_page.entities.deep_view() =~= page.main_page.entities.deep_view());
        SavedBackup::NONE
    }

    /// Ends, at the given time, a save of the selected entity. See
    /// `save_selected_end`.
    pub fn save_selected_end_at(
        &mut self,
        backup: SavedBackup,
        outcome: Result<(), String>,
        now: i64,
    )
        requires
            selection_in_range(old(self)@.main_page.entities, old(self)@.main_page.selected_entity),
        ensures
            final(self)@ == (StatesModel {
                main_page: MainPageModel {
                    entities: match outcome {
                        Ok(_) => old(self)@.main_page.entities,
                        Err(_) => save_undone(old(self)@.main_page, backup@),
                    },
                    ..old(self)@.main_page
                },
                events: save_selected_log(
                    backup@,
                    save_outcome_view(outcome),
                    old(self)@.events,
                    now,
                ),
                ..old(self)@
            }),
    {
        let ghost page = *self;
        match backup {
            SavedBackup::NONE => {},
            SavedBackup::REQUEST(backup_original_data) => match outcome {
                Ok(_) => {
                    self.events.record(
                        EventKind::Info,
                        &"Settings [selected] save complete successful".to_string(),
                        now,
                    );
                },
                Err(err) => {
                    match self.main_page.selected_request_mut() {
                        Some(request) => {
                            request.original.copy_from_other(&backup_original_data);
                            request.is_changed = true;
                            proof {
                                crate::states::main_page::lemma_selected_request_replaced_view(
                                    page.main_page,
                                    self.main_page,
                                    *request,
                                );
                            }
                        },
                        None => {},
                    }
                    assert(self.main_page.entities.deep_view() =~= save_undone(
                        page@.main_page,
                        backup@,
                    ));
                    let message = "Could not save selected request. Error: ".to_string().concat(
                        err.as_str(),
                    );
                    self.events.record(EventKind::Error, &message, now);
                },
            },
            SavedBackup::COLLECTION(backup_original_data) => match outcome {
                Ok(_) => {
                    self.events.record(
                        EventKind::Info,
                        &"Settings save complete successful for selected collection".to_string(),
                        now,
                    );
                },
                Err(err) => {
                    match self.main_page.selected_collection_mut() {
                        Some(collection) => {
                            collection.original.copy_from_other(&backup_original_data);
                            collection.is_changed = true;
                            proof {
                                crate::states::main_page::lemma_entity_replaced_view(
                                    page.main_page,
                                    self.main_page,
                                    page.main_page.selected_entity.collection_idx->0 as int,
                                    Entity::COLLECTION(*collection),
                                );
                            }
                        },
                        None => {},
                    }
                    assert(self.main_page.entities.deep_view() =~= save_undone(
                        page@.main_page,
                        backup@,
                    ));
                    let message = "Could not save selected collection. Error: ".to_string().concat(
                        err.as_str(),
                    );
                    self.events.record(EventKind::Error, &message, now);
                },
            },
        }
    }

    /// Ends a save of the selected entity. A save that went well is noted in
    /// the log. After one that failed, what was put aside is the original
    /// again, the entity counts as changed, and the failure is noted.
    pub fn save_selected_end(&mut self, backup: SavedBackup, outcome: Result<(), String>)
        requires
            selection_in_range(old(self)@.main_page.entities, old(self)@.main_page.selected_entity),
        ensures
            exists|now: i64|
                final(self)@ == (StatesModel {
                    main_page: MainPageModel {
                        entities: match outcome {
                            Ok(_) => old(self)@.main_page.entities,
                            Err(_) => save_undone(old(self)@.main_page, backup@),
                        },
                        ..old(self)@.main_page
                    },
                    events: #[trigger] save_selected_log(
                        backup@,
                        save_outcome_view(outcome),
                        old(self)@.events,
                        now,
                    ),
                    ..old(self)@
                }),
    {
        self.save_selected_end_at(backup, outcome, clock::now_millis());
    }
}

/// The main page after the move that was planned first, if one is planned.
pub open spec fn moves_done(page: MainPageModel) -> MainPageModel {
    if page.request_move_target.len() > 0 {
        spec_move(
            MainPageModel { request_move_target: page.request_move_target.drop_first(), ..page },
            page.request_move_target[0],
        )
    } else {
        page
    }
}

} // verus!
