use focusflow::crud::{
    create_habit, create_note, create_task, delete_habit, delete_note, delete_task, get_habit,
    get_note, get_task, list_habits, list_notes, list_tasks, update_habit, update_note,
    update_task,
};
use focusflow::errors::AppError;
use focusflow::model::{
    CreateHabitRequest, CreateNoteRequest, CreateTaskRequest, EntityFields, EntityType,
    NotesQuery, StoredEntity, TaskPriority, TasksQuery, TaskStatus, UpdateHabitRequest,
    UpdateNoteRequest, UpdateTaskRequest,
};
use focusflow::store::EntityStore;

const OWNER: u128 = 1;
const OTHER_OWNER: u128 = 2;

fn note_req(title: &str, content: &str) -> CreateNoteRequest {
    CreateNoteRequest {
        title: title.to_string(),
        content: content.to_string(),
        tags: Vec::new(),
        is_encrypted: None,
    }
}

fn no_query() -> NotesQuery {
    NotesQuery { limit: None, offset: None, search: None }
}

#[test]
fn created_note_is_readable() {
    let mut store = EntityStore::new();
    let resp = create_note(&mut store, OWNER, 10, note_req("T", "body"), 100).unwrap();
    assert_eq!(resp.version, 1);
    assert_eq!(resp.title, "T");
    let got = get_note(&store, OWNER, 10).unwrap();
    assert_eq!(got.title, "T");
    assert_eq!(got.content, "body");
    assert_eq!(got.version, 1);
    assert_eq!(got.created_at, 100);
}

#[test]
fn duplicate_note_id_is_refused() {
    let mut store = EntityStore::new();
    create_note(&mut store, OWNER, 10, note_req("a", ""), 100).unwrap();
    let err = create_note(&mut store, OWNER, 10, note_req("b", ""), 200).unwrap_err();
    assert!(matches!(err, AppError::Database(_)));
}

#[test]
fn note_update_checks_version_and_advances_it() {
    let mut store = EntityStore::new();
    create_note(&mut store, OWNER, 10, note_req("old", "keep me"), 100).unwrap();

    // Wrong version: refused as a conflict, nothing changes.
    let stale = UpdateNoteRequest {
        title: Some("nope".to_string()),
        content: None,
        tags: None,
        is_encrypted: None,
        version: 9,
    };
    let err = update_note(&mut store, OWNER, 10, &stale, 200).unwrap_err();
    assert!(matches!(err, AppError::Conflict(_)));
    assert_eq!(get_note(&store, OWNER, 10).unwrap().title, "old");

    // Matching version: applied, version advances by one, absent fields
    // keep their stored values.
    let ok = UpdateNoteRequest {
        title: Some("new".to_string()),
        content: None,
        tags: None,
        is_encrypted: None,
        version: 1,
    };
    let resp = update_note(&mut store, OWNER, 10, &ok, 300).unwrap();
    assert_eq!(resp.version, 2);
    assert_eq!(resp.title, "new");
    assert_eq!(resp.content, "keep me");
    assert_eq!(resp.updated_at, 300);
}

#[test]
fn note_update_of_unknown_id_is_not_found() {
    let mut store = EntityStore::new();
    let req = UpdateNoteRequest {
        title: None,
        content: None,
        tags: None,
        is_encrypted: None,
        version: 1,
    };
    let err = update_note(&mut store, OWNER, 10, &req, 100).unwrap_err();
    assert!(matches!(err, AppError::NotFound(_)));
}

#[test]
fn deleted_note_disappears_from_reads() {
    let mut store = EntityStore::new();
    create_note(&mut store, OWNER, 10, note_req("T", ""), 100).unwrap();
    delete_note(&mut store, OWNER, 10, 200).unwrap();
    assert!(matches!(get_note(&store, OWNER, 10), Err(AppError::NotFound(_))));
    assert!(list_notes(&store, OWNER, &no_query()).unwrap().is_empty());
    // Deleting again: the row is no longer visible.
    assert!(matches!(delete_note(&mut store, OWNER, 10, 300), Err(AppError::NotFound(_))));
}

#[test]
fn notes_are_invisible_to_another_owner() {
    let mut store = EntityStore::new();
    create_note(&mut store, OWNER, 10, note_req("T", ""), 100).unwrap();
    assert!(matches!(get_note(&store, OTHER_OWNER, 10), Err(AppError::NotFound(_))));
    assert!(list_notes(&store, OTHER_OWNER, &no_query()).unwrap().is_empty());
    let req = UpdateNoteRequest {
        title: Some("x".to_string()),
        content: None,
        tags: None,
        is_encrypted: None,
        version: 1,
    };
    assert!(matches!(
        update_note(&mut store, OTHER_OWNER, 10, &req, 200),
        Err(AppError::NotFound(_))
    ));
    assert!(matches!(delete_note(&mut store, OTHER_OWNER, 10, 200), Err(AppError::NotFound(_))));
}

#[test]
fn note_listing_pages_in_table_order() {
    let mut store = EntityStore::new();
    for i in 0..5u128 {
        create_note(&mut store, OWNER, 10 + i, note_req(&format!("n{}", i), ""), 100).unwrap();
    }
    let q = NotesQuery { limit: Some(2), offset: Some(1), search: None };
    let page = list_notes(&store, OWNER, &q).unwrap();
    assert_eq!(page.len(), 2);
    assert_eq!(page[0].title, "n1");
    assert_eq!(page[1].title, "n2");

    let q = NotesQuery { limit: Some(10), offset: Some(4), search: None };
    let page = list_notes(&store, OWNER, &q).unwrap();
    assert_eq!(page.len(), 1);
    assert_eq!(page[0].title, "n4");
}

#[test]
fn negative_page_bounds_are_refused() {
    let store = EntityStore::new();
    let q = NotesQuery { limit: Some(-1), offset: None, search: None };
    assert!(matches!(list_notes(&store, OWNER, &q), Err(AppError::Database(_))));
    let q = NotesQuery { limit: None, offset: Some(-3), search: None };
    assert!(matches!(list_notes(&store, OWNER, &q), Err(AppError::Database(_))));
}

#[test]
fn note_search_is_case_insensitive_on_title_and_content() {
    let mut store = EntityStore::new();
    create_note(&mut store, OWNER, 10, note_req("Shopping List", ""), 100).unwrap();
    create_note(&mut store, OWNER, 11, note_req("Work", "buy SHOES"), 100).unwrap();
    create_note(&mut store, OWNER, 12, note_req("Diary", "nothing here"), 100).unwrap();

    let q = NotesQuery { limit: None, offset: None, search: Some("SHO".to_string()) };
    let found = list_notes(&store, OWNER, &q).unwrap();
    assert_eq!(found.len(), 2);
    assert_eq!(found[0].id, 10);
    assert_eq!(found[1].id, 11);

    let q = NotesQuery { limit: None, offset: None, search: Some("zebra".to_string()) };
    assert!(list_notes(&store, OWNER, &q).unwrap().is_empty());
}

#[test]
fn task_listing_filters_by_status() {
    let mut store = EntityStore::new();
    let mk = |status: TaskStatus| CreateTaskRequest {
        title: "t".to_string(),
        description: String::new(),
        status,
        priority: TaskPriority::Low,
    };
    create_task(&mut store, OWNER, 20, mk(TaskStatus::Todo), 100).unwrap();
    create_task(&mut store, OWNER, 21, mk(TaskStatus::Done), 100).unwrap();
    create_task(&mut store, OWNER, 22, mk(TaskStatus::Todo), 100).unwrap();

    let q = TasksQuery { limit: None, offset: None, status: Some(TaskStatus::Todo) };
    let todos = list_tasks(&store, OWNER, &q).unwrap();
    assert_eq!(todos.len(), 2);
    assert_eq!(todos[0].id, 20);
    assert_eq!(todos[1].id, 22);

    let q = TasksQuery { limit: None, offset: None, status: None };
    assert_eq!(list_tasks(&store, OWNER, &q).unwrap().len(), 3);
}

#[test]
fn task_update_writes_text_but_keeps_discriminants() {
    let mut store = EntityStore::new();
    let req = CreateTaskRequest {
        title: "t".to_string(),
        description: "d".to_string(),
        status: TaskStatus::Doing,
        priority: TaskPriority::High,
    };
    create_task(&mut store, OWNER, 20, req, 100).unwrap();

    let upd = UpdateTaskRequest {
        title: Some("t2".to_string()),
        description: None,
        status: Some(TaskStatus::Done),
        priority: Some(TaskPriority::Low),
        version: 1,
    };
    let resp = update_task(&mut store, OWNER, 20, &upd, 200).unwrap();
    assert_eq!(resp.title, "t2");
    assert_eq!(resp.description, "d");
    // Status and priority are not writable on this path.
    assert_eq!(resp.status, TaskStatus::Doing);
    assert_eq!(resp.priority, TaskPriority::High);
    assert_eq!(resp.version, 2);
}

#[test]
fn deleted_task_disappears_from_reads() {
    let mut store = EntityStore::new();
    let req = CreateTaskRequest {
        title: "t".to_string(),
        description: String::new(),
        status: TaskStatus::Todo,
        priority: TaskPriority::Medium,
    };
    create_task(&mut store, OWNER, 20, req, 100).unwrap();
    delete_task(&mut store, OWNER, 20, 200).unwrap();
    assert!(matches!(get_task(&store, OWNER, 20), Err(AppError::NotFound(_))));
}

#[test]
fn habit_crud_round_trip() {
    let mut store = EntityStore::new();
    let req = CreateHabitRequest { name: "run".to_string(), color: "#f00".to_string() };
    let resp = create_habit(&mut store, OWNER, 30, req, 100).unwrap();
    assert_eq!(resp.version, 1);
    assert_eq!(resp.streak, 0);
    assert!(resp.completed_dates.is_empty());

    let upd = UpdateHabitRequest {
        name: None,
        color: None,
        streak: Some(3),
        completed_dates: Some(vec!["2024-01-01".to_string()]),
        version: 1,
    };
    let resp = update_habit(&mut store, OWNER, 30, &upd, 200).unwrap();
    assert_eq!(resp.name, "run");
    assert_eq!(resp.color, "#f00");
    assert_eq!(resp.streak, 3);
    assert_eq!(resp.completed_dates, vec!["2024-01-01".to_string()]);
    assert_eq!(resp.version, 2);

    let listed = list_habits(&store, OWNER);
    assert_eq!(listed.len(), 1);
    assert_eq!(listed[0].streak, 3);

    delete_habit(&mut store, OWNER, 30, 300).unwrap();
    assert!(matches!(get_habit(&store, OWNER, 30), Err(AppError::NotFound(_))));
    assert!(list_habits(&store, OWNER).is_empty());
}

#[test]
fn habit_update_with_wrong_version_conflicts() {
    let mut store = EntityStore::new();
    let req = CreateHabitRequest { name: "read".to_string(), color: "blue".to_string() };
    create_habit(&mut store, OWNER, 30, req, 100).unwrap();
    let upd = UpdateHabitRequest {
        name: Some("write".to_string()),
        color: None,
        streak: None,
        completed_dates: None,
        version: 5,
    };
    let err = update_habit(&mut store, OWNER, 30, &upd, 200).unwrap_err();
    assert!(matches!(err, AppError::Conflict(_)));
    assert_eq!(get_habit(&store, OWNER, 30).unwrap().name, "read");
}

#[test]
fn error_statuses_match_the_response_mapping() {
    assert_eq!(AppError::Database("x".to_string()).http_status(), 500);
    assert_eq!(AppError::Auth("x".to_string()).http_status(), 401);
    assert_eq!(AppError::Unauthorized("x".to_string()).http_status(), 401);
    assert_eq!(AppError::Validation("x".to_string()).http_status(), 400);
    assert_eq!(AppError::GoogleApi("x".to_string()).http_status(), 502);
    assert_eq!(AppError::NotFound("x".to_string()).http_status(), 404);
    assert_eq!(AppError::Conflict("x".to_string()).http_status(), 409);
    assert_eq!(AppError::Internal("x".to_string()).http_status(), 500);
    assert_eq!(AppError::Jwt("x".to_string()).http_status(), 401);
    assert_eq!(AppError::Http("x".to_string()).http_status(), 502);
    assert_eq!(AppError::Serialization("x".to_string()).http_status(), 400);
}

#[test]
fn error_labels_hide_infrastructure_messages() {
    assert_eq!(AppError::Database("secret".to_string()).public_label(), "Database error");
    assert_eq!(AppError::Internal("secret".to_string()).public_label(), "Internal server error");
    assert_eq!(AppError::Jwt("secret".to_string()).public_label(), "Invalid token");
    assert_eq!(AppError::NotFound("Note not found".to_string()).public_label(), "Note not found");
    assert_eq!(AppError::Validation("bad".to_string()).public_label(), "bad");
}

#[test]
fn exhausted_version_counter_is_a_store_error() {
    let mut store = EntityStore::new();
    store.entities.push(StoredEntity {
        kind: EntityType::Note,
        id: 10,
        owner: OWNER,
        version: u32::MAX,
        created_at: 0,
        updated_at: 0,
        deleted_at: None,
        fields: EntityFields::Note {
            title: "T".to_string(),
            content: String::new(),
            tags: Vec::new(),
            is_encrypted: false,
        },
    });
    let req = UpdateNoteRequest {
        title: Some("x".to_string()),
        content: None,
        tags: None,
        is_encrypted: None,
        version: u32::MAX,
    };
    let err = update_note(&mut store, OWNER, 10, &req, 100).unwrap_err();
    assert!(matches!(err, AppError::Database(_)));
    let err = delete_note(&mut store, OWNER, 10, 100).unwrap_err();
    assert!(matches!(err, AppError::Database(_)));
    assert_eq!(get_note(&store, OWNER, 10).unwrap().version, u32::MAX);
}

