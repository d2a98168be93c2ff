use focusflow::errors::AppError;
use focusflow::model::{EntityType, Payload, SyncAction, SyncItem, SyncRequest, TaskStatus};
use focusflow::resolver::{resolve, Decision};
use focusflow::store::EntityStore;
use focusflow::sync::SyncService;

const OWNER: u128 = 7;
const OTHER_OWNER: u128 = 8;
const X: u128 = 100;

fn empty_payload() -> Payload {
    Payload::empty()
}

fn note_payload(title: &str) -> Payload {
    Payload { title: Some(title.to_string()), ..empty_payload() }
}

fn note_item(id: u128, version: u32, deleted: bool, data: Option<Payload>) -> SyncItem {
    SyncItem { id, version, deleted, data }
}

fn notes_request(notes: Vec<SyncItem>) -> SyncRequest {
    SyncRequest { notes, tasks: Vec::new(), habits: Vec::new() }
}

fn service() -> SyncService {
    SyncService::new(EntityStore::new())
}

#[test]
fn resolve_missing_entity_is_create() {
    assert_eq!(resolve(None, 1), Decision::Create);
    assert_eq!(resolve(None, 42), Decision::Create);
}

#[test]
fn resolve_equal_versions_is_no_change() {
    assert_eq!(resolve(Some(5), 5), Decision::NoChange);
}

#[test]
fn resolve_newer_incoming_is_update() {
    assert_eq!(resolve(Some(4), 5), Decision::Update);
}

#[test]
fn resolve_stale_incoming_is_conflict() {
    assert_eq!(resolve(Some(6), 5), Decision::Conflict);
}

#[test]
fn create_against_empty_store() {
    // Scenario: {id: X, version: 1, deleted: false, data: {title: "T"}}
    // against an empty store.
    let mut svc = service();
    let req = notes_request(vec![note_item(X, 1, false, Some(note_payload("T")))]);
    let resp = svc.sync_user_data(OWNER, req, 1000).unwrap();
    assert_eq!(resp.notes.len(), 1);
    assert_eq!(resp.notes[0].id, X);
    assert_eq!(resp.notes[0].version, 1);
    assert_eq!(resp.notes[0].action, SyncAction::Created);
    assert!(resp.conflicts.is_empty());
    assert_eq!(svc.store.find_version(OWNER, EntityType::Note, X), Some(1));
}

#[test]
fn stale_submission_is_reported_as_conflict() {
    // Scenario: store holds version 3 for X; the client submits version 2.
    let mut svc = service();
    let req = notes_request(vec![note_item(X, 3, false, Some(note_payload("server")))]);
    svc.sync_user_data(OWNER, req, 1000).unwrap();

    let req = notes_request(vec![note_item(X, 2, false, Some(note_payload("stale")))]);
    let resp = svc.sync_user_data(OWNER, req, 2000).unwrap();
    assert!(resp.notes.is_empty());
    assert_eq!(resp.conflicts.len(), 1);
    let c = &resp.conflicts[0];
    assert_eq!(c.entity_id, X);
    assert_eq!(c.local_version, 2);
    assert_eq!(c.server_version, 3);
    assert_eq!(svc.store.find_version(OWNER, EntityType::Note, X), Some(3));
}

#[test]
fn delete_with_next_version_tombstones_and_advances() {
    // Scenario: deleted: true with version current + 1 for an existing id.
    let mut svc = service();
    let req = notes_request(vec![note_item(X, 1, false, Some(note_payload("T")))]);
    svc.sync_user_data(OWNER, req, 1000).unwrap();

    let req = notes_request(vec![note_item(X, 2, true, None)]);
    let resp = svc.sync_user_data(OWNER, req, 2000).unwrap();
    assert_eq!(resp.notes.len(), 1);
    assert_eq!(resp.notes[0].action, SyncAction::Deleted);
    assert_eq!(resp.notes[0].version, 2);
    assert_eq!(svc.store.find_version(OWNER, EntityType::Note, X), Some(2));

    // A subsequent ordinary read excludes X.
    assert!(matches!(
        focusflow::crud::get_note(&svc.store, OWNER, X),
        Err(AppError::NotFound(_))
    ));
    let q = focusflow::model::NotesQuery { limit: None, offset: None, search: None };
    let listed = focusflow::crud::list_notes(&svc.store, OWNER, &q).unwrap();
    assert!(listed.is_empty());
}

#[test]
fn resubmitting_an_applied_item_is_no_change() {
    // Idempotence: the identical item in a second call never creates a
    // duplicate.
    let mut svc = service();
    let req = notes_request(vec![note_item(X, 1, false, Some(note_payload("T")))]);
    let first = svc.sync_user_data(OWNER, req, 1000).unwrap();
    assert_eq!(first.notes[0].action, SyncAction::Created);

    let req = notes_request(vec![note_item(X, 1, false, Some(note_payload("T")))]);
    let second = svc.sync_user_data(OWNER, req, 2000).unwrap();
    assert_eq!(second.notes.len(), 1);
    assert_eq!(second.notes[0].action, SyncAction::NoChange);
    assert!(second.conflicts.is_empty());
    assert_eq!(svc.store.find_version(OWNER, EntityType::Note, X), Some(1));
}

#[test]
fn equal_version_ignores_a_changed_payload() {
    // The protocol treats equal versions as NoChange without inspecting the
    // payload, so a same-version resubmission with different field values is
    // silently not applied.
    let mut svc = service();
    let req = notes_request(vec![note_item(X, 1, false, Some(note_payload("original")))]);
    svc.sync_user_data(OWNER, req, 1000).unwrap();

    let req = notes_request(vec![note_item(X, 1, false, Some(note_payload("changed")))]);
    let resp = svc.sync_user_data(OWNER, req, 2000).unwrap();
    assert_eq!(resp.notes[0].action, SyncAction::NoChange);
    let note = focusflow::crud::get_note(&svc.store, OWNER, X).unwrap();
    assert_eq!(note.title, "original");
}

#[test]
fn newer_version_overwrites_and_sets_exact_version() {
    // The accepted update sets the version to exactly the incoming one, not
    // an increment of the stored one.
    let mut svc = service();
    let req = notes_request(vec![note_item(X, 1, false, Some(note_payload("old")))]);
    svc.sync_user_data(OWNER, req, 1000).unwrap();

    let req = notes_request(vec![note_item(X, 5, false, Some(note_payload("new")))]);
    let resp = svc.sync_user_data(OWNER, req, 2000).unwrap();
    assert_eq!(resp.notes[0].action, SyncAction::Updated);
    assert_eq!(resp.notes[0].version, 5);
    assert_eq!(svc.store.find_version(OWNER, EntityType::Note, X), Some(5));
    let note = focusflow::crud::get_note(&svc.store, OWNER, X).unwrap();
    assert_eq!(note.title, "new");
    assert_eq!(note.version, 5);
}

#[test]
fn tags_round_trip_in_submitted_order() {
    // A created note's tags submitted as ["a", "b"] come back exactly so.
    let mut svc = service();
    let payload = Payload {
        title: Some("tagged".to_string()),
        tags: Some(vec!["a".to_string(), "b".to_string()]),
        ..empty_payload()
    };
    let req = notes_request(vec![note_item(X, 1, false, Some(payload))]);
    let resp = svc.sync_user_data(OWNER, req, 1000).unwrap();
    assert_eq!(resp.notes[0].action, SyncAction::Created);
    let note = focusflow::crud::get_note(&svc.store, OWNER, X).unwrap();
    assert_eq!(note.tags, vec!["a".to_string(), "b".to_string()]);
}

#[test]
fn missing_payload_on_non_delete_aborts_the_batch() {
    let mut svc = service();
    let req = notes_request(vec![note_item(X, 1, false, None)]);
    let err = svc.sync_user_data(OWNER, req, 1000).unwrap_err();
    assert!(matches!(err, AppError::Validation(_)));
    assert_eq!(svc.store.find_version(OWNER, EntityType::Note, X), None);
}

#[test]
fn failure_midway_keeps_earlier_items_applied() {
    // Each item's write is its own transaction: a validation failure aborts
    // the batch but leaves the items already applied visible.
    let mut svc = service();
    let req = notes_request(vec![
        note_item(X, 1, false, Some(note_payload("kept"))),
        note_item(X + 1, 1, false, None),
    ]);
    let err = svc.sync_user_data(OWNER, req, 1000).unwrap_err();
    assert!(matches!(err, AppError::Validation(_)));
    assert_eq!(svc.store.find_version(OWNER, EntityType::Note, X), Some(1));
    assert_eq!(svc.store.find_version(OWNER, EntityType::Note, X + 1), None);
}

#[test]
fn task_without_status_is_a_validation_error() {
    let mut svc = service();
    let req = SyncRequest {
        notes: Vec::new(),
        tasks: vec![note_item(X, 1, false, Some(note_payload("no status")))],
        habits: Vec::new(),
    };
    let err = svc.sync_user_data(OWNER, req, 1000).unwrap_err();
    assert!(matches!(err, AppError::Validation(_)));
}

#[test]
fn task_with_status_syncs_with_defaults() {
    let mut svc = service();
    let payload = Payload { status: Some(TaskStatus::Doing), ..empty_payload() };
    let req = SyncRequest {
        notes: Vec::new(),
        tasks: vec![note_item(X, 1, false, Some(payload))],
        habits: Vec::new(),
    };
    let resp = svc.sync_user_data(OWNER, req, 1000).unwrap();
    assert_eq!(resp.tasks[0].action, SyncAction::Created);
    let task = focusflow::crud::get_task(&svc.store, OWNER, X).unwrap();
    assert_eq!(task.title, "Untitled");
    assert_eq!(task.status, TaskStatus::Doing);
    assert_eq!(task.priority, focusflow::model::TaskPriority::Medium);
}

#[test]
fn foreign_owned_id_fails_closed() {
    let mut svc = service();
    let req = notes_request(vec![note_item(X, 1, false, Some(note_payload("mine")))]);
    svc.sync_user_data(OWNER, req, 1000).unwrap();

    let req = notes_request(vec![note_item(X, 2, false, Some(note_payload("theirs")))]);
    let err = svc.sync_user_data(OTHER_OWNER, req, 2000).unwrap_err();
    assert!(matches!(err, AppError::Unauthorized(_)));
    assert_eq!(svc.store.find_version(OWNER, EntityType::Note, X), Some(1));
}

#[test]
fn delete_of_unknown_id_creates_a_tombstone() {
    // First appearance of an id with deleted: true creates the row already
    // tombstoned at the submitted version, so offline deletion is
    // idempotent.
    let mut svc = service();
    let req = notes_request(vec![note_item(X, 4, true, None)]);
    let resp = svc.sync_user_data(OWNER, req, 1000).unwrap();
    assert_eq!(resp.notes[0].action, SyncAction::Deleted);
    assert_eq!(svc.store.find_version(OWNER, EntityType::Note, X), Some(4));
    assert!(matches!(
        focusflow::crud::get_note(&svc.store, OWNER, X),
        Err(AppError::NotFound(_))
    ));
}

#[test]
fn stale_delete_is_a_conflict() {
    // A deletion based on a stale snapshot is refused like any stale edit.
    let mut svc = service();
    let req = notes_request(vec![note_item(X, 3, false, Some(note_payload("T")))]);
    svc.sync_user_data(OWNER, req, 1000).unwrap();

    let req = notes_request(vec![note_item(X, 2, true, None)]);
    let resp = svc.sync_user_data(OWNER, req, 2000).unwrap();
    assert!(resp.notes.is_empty());
    assert_eq!(resp.conflicts.len(), 1);
    assert_eq!(resp.conflicts[0].server_version, 3);
    assert_eq!(svc.store.find_version(OWNER, EntityType::Note, X), Some(3));
}

#[test]
fn conflicts_from_all_kinds_are_aggregated() {
    let mut svc = service();
    let seed = SyncRequest {
        notes: vec![note_item(X, 3, false, Some(note_payload("n")))],
        tasks: vec![note_item(
            X + 1,
            3,
            false,
            Some(Payload { status: Some(TaskStatus::Todo), ..empty_payload() }),
        )],
        habits: vec![note_item(X + 2, 3, false, Some(empty_payload()))],
    };
    svc.sync_user_data(OWNER, seed, 1000).unwrap();

    let stale = SyncRequest {
        notes: vec![note_item(X, 1, false, Some(note_payload("n")))],
        tasks: vec![note_item(
            X + 1,
            1,
            false,
            Some(Payload { status: Some(TaskStatus::Todo), ..empty_payload() }),
        )],
        habits: vec![note_item(X + 2, 1, false, Some(empty_payload()))],
    };
    let resp = svc.sync_user_data(OWNER, stale, 2000).unwrap();
    assert_eq!(resp.conflicts.len(), 3);
    assert_eq!(resp.conflicts[0].entity_type, EntityType::Note);
    assert_eq!(resp.conflicts[1].entity_type, EntityType::Task);
    assert_eq!(resp.conflicts[2].entity_type, EntityType::Habit);
}

#[test]
fn successful_batch_stamps_last_sync_once() {
    let mut svc = service();
    svc.store.users.push(focusflow::store::User {
        id: OWNER,
        google_id: "g".to_string(),
        email: "e@example.com".to_string(),
        name: "n".to_string(),
        profile_picture: None,
        google_access_token: None,
        google_refresh_token: None,
        google_token_expires_at: None,
        created_at: 0,
        updated_at: 0,
        last_sync_at: None,
    });
    let req = notes_request(vec![note_item(X, 1, false, Some(note_payload("T")))]);
    svc.sync_user_data(OWNER, req, 5555).unwrap();
    assert_eq!(svc.store.users[0].last_sync_at, Some(5555));
}

#[test]
fn aborted_batch_does_not_stamp_last_sync() {
    let mut svc = service();
    svc.store.users.push(focusflow::store::User {
        id: OWNER,
        google_id: "g".to_string(),
        email: "e@example.com".to_string(),
        name: "n".to_string(),
        profile_picture: None,
        google_access_token: None,
        google_refresh_token: None,
        google_token_expires_at: None,
        created_at: 0,
        updated_at: 0,
        last_sync_at: None,
    });
    let req = notes_request(vec![note_item(X, 1, false, None)]);
    svc.sync_user_data(OWNER, req, 5555).unwrap_err();
    assert_eq!(svc.store.users[0].last_sync_at, None);
}

#[test]
fn sync_status_reports_live_entities_only() {
    let mut svc = service();
    let req = SyncRequest {
        notes: vec![
            note_item(X, 2, false, Some(note_payload("live"))),
            note_item(X + 1, 1, true, None),
        ],
        tasks: vec![note_item(
            X + 2,
            7,
            false,
            Some(Payload { status: Some(TaskStatus::Done), ..empty_payload() }),
        )],
        habits: Vec::new(),
    };
    svc.sync_user_data(OWNER, req, 1000).unwrap();

    let statuses = svc.get_sync_status(OWNER);
    assert_eq!(statuses.len(), 2);
    assert_eq!(statuses[0].entity_type, EntityType::Note);
    assert_eq!(statuses[0].entity_id, X);
    assert_eq!(statuses[0].server_version, 2);
    assert_eq!(statuses[0].local_version, 2);
    assert!(!statuses[0].needs_sync);
    assert!(!statuses[0].conflict);
    assert_eq!(statuses[1].entity_type, EntityType::Task);
    assert_eq!(statuses[1].entity_id, X + 2);
    assert_eq!(statuses[1].server_version, 7);

    assert!(svc.get_sync_status(OTHER_OWNER).is_empty());
}

#[test]
fn sync_note_alone_applies_one_item() {
    let mut svc = service();
    let item = note_item(X, 1, false, Some(note_payload("T")));
    let out = svc.sync_note(OWNER, &item, 1000).unwrap();
    match out {
        focusflow::sync::ItemOutcome::Applied(res) => {
            assert_eq!(res.action, SyncAction::Created);
            assert_eq!(res.version, 1);
        }
        focusflow::sync::ItemOutcome::Conflicted(_) => panic!("unexpected conflict"),
    }
    assert_eq!(svc.store.find_version(OWNER, EntityType::Note, X), Some(1));
}

#[test]
fn tombstoned_record_stays_deleted_through_a_later_edit() {
    // An accepted edit of a soft-deleted row overwrites fields and version
    // but does not clear the soft-delete marker: reads still exclude it.
    let mut svc = service();
    let req = notes_request(vec![note_item(X, 1, false, Some(note_payload("T")))]);
    svc.sync_user_data(OWNER, req, 1000).unwrap();
    let req = notes_request(vec![note_item(X, 2, true, None)]);
    svc.sync_user_data(OWNER, req, 2000).unwrap();

    let req = notes_request(vec![note_item(X, 3, false, Some(note_payload("revived?")))]);
    let resp = svc.sync_user_data(OWNER, req, 3000).unwrap();
    assert_eq!(resp.notes[0].action, SyncAction::Updated);
    assert_eq!(svc.store.find_version(OWNER, EntityType::Note, X), Some(3));
    assert!(matches!(
        focusflow::crud::get_note(&svc.store, OWNER, X),
        Err(AppError::NotFound(_))
    ));
}

#[test]
fn habit_sync_applies_defaults_symmetrically() {
    let mut svc = service();
    let payload = Payload {
        name: Some("meditate".to_string()),
        streak: Some(4),
        completed_dates: Some(vec!["2024-02-02".to_string()]),
        ..empty_payload()
    };
    let req = SyncRequest {
        notes: Vec::new(),
        tasks: Vec::new(),
        habits: vec![note_item(X, 1, false, Some(payload))],
    };
    let resp = svc.sync_user_data(OWNER, req, 1000).unwrap();
    assert_eq!(resp.habits[0].action, SyncAction::Created);
    let habit = focusflow::crud::get_habit(&svc.store, OWNER, X).unwrap();
    assert_eq!(habit.name, "meditate");
    assert_eq!(habit.color, "");
    assert_eq!(habit.streak, 4);
    assert_eq!(habit.completed_dates, vec!["2024-02-02".to_string()]);
}

