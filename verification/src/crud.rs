//! The single-entity handlers' decision logic: version-checked reads and
//! writes for one note, task or habit at a time.
//!
//! These follow the same optimistic-concurrency pattern as the sync
//! executors, without batching: a read sees only live rows of the caller; an
//! update is accepted only against the row's current version and advances it
//! by one; a delete sets the soft-delete marker and advances the version.
//! Listings report the caller's live rows in table order, paged by offset
//! and limit (defaults 0 and 50); the note listing can filter by a
//! case-insensitive substring of title or content, the task listing by
//! status.

use vstd::prelude::*;

use crate::errors::{AppError, ErrorView};
use crate::executor::or_default;
use crate::model::{
    CreateHabitRequest, CreateNoteRequest, CreateTaskRequest, EntityFields, EntityType, FieldsView,
    HabitResponse, HabitResponseView, NoteResponse, NoteResponseView, NotesQuery, RecordView,
    StoredEntity, TaskResponse, TaskResponseView, TasksQuery, TaskStatus, UpdateHabitRequest,
    UpdateNoteRequest, UpdateNoteRequestView, UpdateHabitRequestView, UpdateTaskRequest,
    UpdateTaskRequestView, lemma_cloned_string_vec,
};
use crate::store::{EntityStore, spec_find, table_wf};
use crate::text::{spec_contains_ci, str_contains_ci};

verus! {

/// Index of the row for `(kind, id)` as the single-entity handlers see it:
/// present only when it belongs to `owner` and is not soft-deleted.
pub open spec fn spec_visible(
    s: Seq<RecordView>,
    owner: u128,
    kind: EntityType,
    id: u128,
) -> Option<int> {
    match spec_find(s, kind, id) {
        Some(i) => if s[i].owner == owner && s[i].deleted_at is None {
            Some(i)
        } else {
            None
        },
        None => None,
    }
}

/// The page `[offset, offset + limit)` of a listing, clipped to its length.
pub open spec fn spec_page<A>(s: Seq<A>, offset: int, limit: int) -> Seq<A> {
    let start = if offset > s.len() {
        s.len() as int
    } else {
        offset
    };
    let end = if offset + limit > s.len() {
        s.len() as int
    } else {
        offset + limit
    };
    s.subrange(start, end)
}

/// A note row as the handlers report it.
pub open spec fn spec_note_response(r: RecordView) -> NoteResponseView {
    NoteResponseView {
        id: r.id,
        title: r.fields->Note_title,
        content: r.fields->Note_content,
        tags: r.fields->Note_tags,
        is_encrypted: r.fields->Note_is_encrypted,
        created_at: r.created_at,
        updated_at: r.updated_at,
        version: r.version,
    }
}

/// A task row as the handlers report it.
pub open spec fn spec_task_response(r: RecordView) -> TaskResponseView {
    TaskResponseView {
        id: r.id,
        title: r.fields->Task_title,
        description: r.fields->Task_description,
        status: r.fields->Task_status,
        priority: r.fields->Task_priority,
        created_at: r.created_at,
        updated_at: r.updated_at,
        version: r.version,
    }
}

/// A habit row as the handlers report it.
pub open spec fn spec_habit_response(r: RecordView) -> HabitResponseView {
    HabitResponseView {
        id: r.id,
        name: r.fields->Habit_name,
        color: r.fields->Habit_color,
        streak: r.fields->Habit_streak,
        completed_dates: r.fields->Habit_completed_dates,
        created_at: r.created_at,
        updated_at: r.updated_at,
        version: r.version,
    }
}

/// Whether a note row matches the optional search filter: the pattern
/// occurs, up to ASCII case, in its title or its content.
pub open spec fn spec_note_matches(r: RecordView, search: Option<Seq<char>>) -> bool {
    match search {
        None => true,
        Some(p) => spec_contains_ci(r.fields->Note_title, p) || spec_contains_ci(
            r.fields->Note_content,
            p,
        ),
    }
}

/// The full (unpaged) note listing: the caller's live note rows matching the
/// search filter, in table order.
pub open spec fn spec_list_notes(
    s: Seq<RecordView>,
    owner: u128,
    search: Option<Seq<char>>,
) -> Seq<NoteResponseView>
    decreases s.len(),
{
    if s.len() == 0 {
        Seq::empty()
    } else {
        let rest = spec_list_notes(s.drop_last(), owner, search);
        let r = s.last();
        if r.kind == EntityType::Note && r.owner == owner && r.deleted_at is None
            && spec_note_matches(r, search) {
            rest.push(spec_note_response(r))
        } else {
            rest
        }
    }
}

/// The full (unpaged) task listing: the caller's live task rows matching the
/// optional status filter, in table order.
pub open spec fn spec_list_tasks(
    s: Seq<RecordView>,
    owner: u128,
    status: Option<TaskStatus>,
) -> Seq<TaskResponseView>
    decreases s.len(),
{
    if s.len() == 0 {
        Seq::empty()
    } else {
        let rest = spec_list_tasks(s.drop_last(), owner, status);
        let r = s.last();
        if r.kind == EntityType::Task && r.owner == owner && r.deleted_at is None && (match status {
            None => true,
            Some(st) => r.fields->Task_status == st,
        }) {
            rest.push(spec_task_response(r))
        } else {
            rest
        }
    }
}

/// The full habit listing: the caller's live habit rows, in table order.
pub open spec fn spec_list_habits(s: Seq<RecordView>, owner: u128) -> Seq<HabitResponseView>
    decreases s.len(),
{
    if s.len() == 0 {
        Seq::empty()
    } else {
        let rest = spec_list_habits(s.drop_last(), owner);
        let r = s.last();
        if r.kind == EntityType::Habit && r.owner == owner && r.deleted_at is None {
            rest.push(spec_habit_response(r))
        } else {
            rest
        }
    }
}

/// Note fields after a version-checked update: requested fields replace
/// stored ones, absent ones keep the stored value.
pub open spec fn spec_merged_note(old_fields: FieldsView, req: UpdateNoteRequestView) -> FieldsView {
    FieldsView::Note {
        title: or_default(req.title, old_fields->Note_title),
        content: or_default(req.content, old_fields->Note_content),
        tags: or_default(req.tags, old_fields->Note_tags),
        is_encrypted: or_default(req.is_encrypted, old_fields->Note_is_encrypted),
    }
}

/// Task fields after a version-checked update.  Only the title and the
/// description are writable on this path; status and priority keep their
/// stored values.
pub open spec fn spec_merged_task(old_fields: FieldsView, req: UpdateTaskRequestView) -> FieldsView {
    FieldsView::Task {
        title: or_default(req.title, old_fields->Task_title),
        description: or_default(req.description, old_fields->Task_description),
        status: old_fields->Task_status,
        priority: old_fields->Task_priority,
    }
}

/// Habit fields after a version-checked update: requested fields replace
/// stored ones, absent ones keep the stored value.
pub open spec fn spec_merged_habit(
    old_fields: FieldsView,
    req: UpdateHabitRequestView,
) -> FieldsView {
    FieldsView::Habit {
        name: or_default(req.name, old_fields->Habit_name),
        color: or_default(req.color, old_fields->Habit_color),
        streak: or_default(req.streak, old_fields->Habit_streak),
        completed_dates: or_default(req.completed_dates, old_fields->Habit_completed_dates),
    }
}


/// Copy a vector of strings.
fn clone_string_vec(v: &Vec<String>) -> (r: Vec<String>)
    ensures
        r.deep_view() == v.deep_view(),
{
    let r = v.clone();
    proof {
        lemma_cloned_string_vec(*v, r);
    }
    r
}

/// Build a note report from its parts.
fn note_response_of(
    id: u128,
    fields: &EntityFields,
    created_at: i64,
    updated_at: i64,
    version: u32,
) -> (r: NoteResponse)
    requires
        fields@ is Note,
    ensures
        r@ == (NoteResponseView {
            id: id,
            title: fields@->Note_title,
            content: fields@->Note_content,
            tags: fields@->Note_tags,
            is_encrypted: fields@->Note_is_encrypted,
            created_at: created_at,
            updated_at: updated_at,
            version: version,
        }),
{
    match fields {
        EntityFields::Note { title, content, tags, is_encrypted } => NoteResponse {
            id,
            title: title.clone(),
            content: content.clone(),
            tags: clone_string_vec(tags),
            is_encrypted: *is_encrypted,
            created_at,
            updated_at,
            version,
        },
        _ => vstd::pervasive::unreached(),
    }
}

/// Report a stored note row.
fn note_response(e: &StoredEntity) -> (r: NoteResponse)
    requires
        e@.fields is Note,
    ensures
        r@ == spec_note_response(e@),
{
    note_response_of(e.id, &e.fields, e.created_at, e.updated_at, e.version)
}

/// The row a direct note creation appends: version 1, live, timestamped
/// now.
pub open spec fn spec_created_note(
    owner: u128,
    id: u128,
    req: crate::model::CreateNoteRequestView,
    now: i64,
) -> RecordView {
    RecordView {
        kind: EntityType::Note,
        id: id,
        owner: owner,
        version: 1,
        created_at: now,
        updated_at: now,
        deleted_at: None,
        fields: FieldsView::Note {
            title: req.title,
            content: req.content,
            tags: req.tags,
            is_encrypted: or_default(req.is_encrypted, false),
        },
    }
}

/// List the caller's live notes, optionally filtered by a case-insensitive
/// substring of title or content, paged by offset and limit (defaults 0 and
/// 50).  Rows come in table order.  Negative page bounds are refused as a
/// store error, as the backing store would refuse them.
pub fn list_notes(store: &EntityStore, owner: u128, query: &NotesQuery) -> (r: Result<
    Vec<NoteResponse>,
    AppError,
>)
    requires
        table_wf(store@.entities),
    ensures
        ({
            let limit = or_default(query@.limit, 50);
            let offset = or_default(query@.offset, 0);
            match r {
                Ok(out) => limit >= 0 && offset >= 0 && out.deep_view() == spec_page(
                    spec_list_notes(store@.entities, owner, query@.search),
                    offset as int,
                    limit as int,
                ),
                Err(e) => (limit < 0 || offset < 0) && e@ is Database,
            }
        }),
{
    let limit: i64 = match query.limit {
        Some(l) => l,
        None => 50,
    };
    let offset: i64 = match query.offset {
        Some(o) => o,
        None => 0,
    };
    if limit < 0 || offset < 0 {
        return Err(AppError::Database(String::from_str("page bounds must not be negative")));
    }
    let all = collect_notes(store, owner, &query.search);
    Ok(page_notes(all, offset, limit))
}

/// Collect the caller's live notes matching the search filter, unpaged.
pub fn collect_notes(store: &EntityStore, owner: u128, search: &Option<String>) -> (all: Vec<
    NoteResponse,
>)
    requires
        table_wf(store@.entities),
    ensures
        all.deep_view() == spec_list_notes(store@.entities, owner, search.deep_view()),
{
    let mut all: Vec<NoteResponse> = Vec::new();
    let n = store.entities.len();
    let mut i: usize = 0;
    proof {
        assert(store@.entities.take(0) =~= Seq::<RecordView>::empty());
        assert(all.deep_view() =~= Seq::<NoteResponseView>::empty());
    }
    while i < n
        invariant
            n == store.entities.len(),
            i <= n,
            table_wf(store@.entities),
            all.deep_view() == spec_list_notes(
                store@.entities.take(i as int),
                owner,
                search.deep_view(),
            ),
        decreases n - i,
    {
        let ghost taken = store@.entities.take(i as int + 1);
        proof {
            assert(taken.drop_last() =~= store@.entities.take(i as int));
            assert(taken.last() == store@.entities[i as int]);
            assert(crate::store::record_wf(store@.entities[i as int]));
        }
        let e = &store.entities[i];
        if matches!(e.kind, EntityType::Note) && e.owner == owner && e.deleted_at.is_none() {
            let hit = match search {
                Some(p) => match &e.fields {
                    EntityFields::Note { title, content, .. } => str_contains_ci(
                        title.as_str(),
                        p.as_str(),
                    ) || str_contains_ci(content.as_str(), p.as_str()),
                    _ => vstd::pervasive::unreached(),
                },
                None => true,
            };
            if hit {
                let ghost prev = all.deep_view();
                let resp = note_response(e);
                let ghost rv = resp@;
                all.push(resp);
                proof {
                    assert(all.deep_view() =~= prev.push(rv));
                }
            }
        }
        i = i + 1;
    }
    proof {
        assert(store@.entities.take(n as int) =~= store@.entities);
    }
    all
}

/// Clip a note listing to the page `[offset, offset + limit)`.
fn page_notes(all: Vec<NoteResponse>, offset: i64, limit: i64) -> (out: Vec<NoteResponse>)
    requires
        offset >= 0,
        limit >= 0,
    ensures
        out.deep_view() == spec_page(all.deep_view(), offset as int, limit as int),
{
    let ghost full = all.deep_view();
    let mut all = all;
    let off: usize = if offset as u64 >= all.len() as u64 {
        all.len()
    } else {
        offset as usize
    };
    let mut tail = all.split_off(off);
    if (limit as u64) < (tail.len() as u64) {
        tail.truncate(limit as usize);
    }
    proof {
        assert(tail.deep_view() =~= spec_page(full, offset as int, limit as int));
    }
    tail
}

/// Fetch one of the caller's live notes by id.
pub fn get_note(store: &EntityStore, owner: u128, note_id: u128) -> (r: Result<
    NoteResponse,
    AppError,
>)
    requires
        table_wf(store@.entities),
    ensures
        (match r {
            Ok(resp) => spec_visible(store@.entities, owner, EntityType::Note, note_id) is Some
                && resp@ == spec_note_response(
                store@.entities[spec_visible(
                    store@.entities,
                    owner,
                    EntityType::Note,
                    note_id,
                ).unwrap()],
            ),
            Err(e) => spec_visible(store@.entities, owner, EntityType::Note, note_id) is None
                && e@ == ErrorView::NotFound("Note not found"@),
        }),
{
    match store.find_index(EntityType::Note, note_id) {
        Some(i) => {
            let e = &store.entities[i];
            if e.owner == owner && e.deleted_at.is_none() {
                proof {
                    assert(crate::store::record_wf(store@.entities[i as int]));
                }
                Ok(note_response(e))
            } else {
                Err(AppError::NotFound(String::from_str("Note not found")))
            }
        },
        None => Err(AppError::NotFound(String::from_str("Note not found"))),
    }
}

/// Create a note for the caller at version 1.  Refused as a store error when
/// the id is already taken.
pub fn create_note(
    store: &mut EntityStore,
    owner: u128,
    note_id: u128,
    req: CreateNoteRequest,
    now: i64,
) -> (r: Result<NoteResponse, AppError>)
    ensures
        final(store)@.users == old(store)@.users,
        table_wf(old(store)@.entities) ==> table_wf(final(store)@.entities),
        (match r {
            Ok(resp) => spec_find(old(store)@.entities, EntityType::Note, note_id) is None && final(store)@.entities == old(store)@.entities.push(spec_created_note(owner, note_id, req@, now))
                && resp@ == spec_note_response(spec_created_note(owner, note_id, req@, now)),
            Err(e) => spec_find(old(store)@.entities, EntityType::Note, note_id) is Some && final(store)@ == old(store)@ && e@ is Database,
        }),
{
    let is_encrypted = match req.is_encrypted {
        Some(b) => b,
        None => false,
    };
    let record = StoredEntity {
        kind: EntityType::Note,
        id: note_id,
        owner,
        version: 1,
        created_at: now,
        updated_at: now,
        deleted_at: None,
        fields: EntityFields::Note {
            title: req.title,
            content: req.content,
            tags: req.tags,
            is_encrypted,
        },
    };
    let resp = note_response(&record);
    match store.insert(record) {
        Ok(()) => {
            proof {
                let pushed = old(store)@.entities.push(spec_created_note(owner, note_id, req@, now));
                assert(final(store)@.entities =~= pushed);
                if table_wf(old(store)@.entities) {
                    assert forall|j: int|
                        0 <= j < final(store)@.entities.len() implies crate::store::record_wf(
                        #[trigger] final(store)@.entities[j],
                    ) by {
                        if j < old(store)@.entities.len() {
                            assert(crate::store::record_wf(old(store)@.entities[j]));
                        }
                    }
                }
            }
            Ok(resp)
        },
        Err(e) => Err(e),
    }
}

/// The merged note fields of a version-checked update.
fn merged_note_fields(old_fields: &EntityFields, req: &UpdateNoteRequest) -> (f: EntityFields)
    requires
        old_fields@ is Note,
    ensures
        f@ == spec_merged_note(old_fields@, req@),
{
    match old_fields {
        EntityFields::Note { title, content, tags, is_encrypted } => EntityFields::Note {
            title: match &req.title {
                Some(t) => t.clone(),
                None => title.clone(),
            },
            content: match &req.content {
                Some(c) => c.clone(),
                None => content.clone(),
            },
            tags: match &req.tags {
                Some(t) => clone_string_vec(t),
                None => clone_string_vec(tags),
            },
            is_encrypted: match req.is_encrypted {
                Some(b) => b,
                None => *is_encrypted,
            },
        },
        _ => vstd::pervasive::unreached(),
    }
}

/// Update one of the caller's live notes, version-checked: accepted only
/// when the submitted version equals the stored one, and then the version
/// advances by one.  Absent fields keep their stored values.
pub fn update_note(
    store: &mut EntityStore,
    owner: u128,
    note_id: u128,
    req: &UpdateNoteRequest,
    now: i64,
) -> (r: Result<NoteResponse, AppError>)
    requires
        table_wf(old(store)@.entities),
    ensures
        final(store)@.users == old(store)@.users,
        table_wf(final(store)@.entities),
        (match r {
            Ok(resp) => ({
                let vis = spec_visible(old(store)@.entities, owner, EntityType::Note, note_id);
                let i = vis.unwrap();
                let prior = old(store)@.entities[i];
                let updated = RecordView {
                    fields: spec_merged_note(prior.fields, req@),
                    version: (prior.version + 1) as u32,
                    updated_at: now,
                    ..prior
                };
                &&& vis is Some
                &&& prior.version == req.version
                &&& prior.version < u32::MAX
                &&& final(store)@.entities == old(store)@.entities.update(i, updated)
                &&& resp@ == spec_note_response(updated)
            }),
            Err(e) => final(store)@ == old(store)@ && ({
                let vis = spec_visible(old(store)@.entities, owner, EntityType::Note, note_id);
                match e@ {
                    ErrorView::NotFound(m) => vis is None && m == "Note not found"@,
                    ErrorView::Conflict(m) => vis is Some && old(store)@.entities[vis.unwrap()].version
                        != req.version && m == "Note has been modified by another client"@,
                    ErrorView::Database(_) => vis is Some && old(store)@.entities[vis.unwrap()].version
                        == req.version && req.version == u32::MAX,
                    _ => false,
                }
            }),
        }),
{
    match store.find_index(EntityType::Note, note_id) {
        Some(i) => {
            let e = &store.entities[i];
            if e.owner == owner && e.deleted_at.is_none() {
                if e.version != req.version {
                    return Err(
                        AppError::Conflict(
                            String::from_str("Note has been modified by another client"),
                        ),
                    );
                }
                if e.version == u32::MAX {
                    return Err(
                        AppError::Database(String::from_str("note version counter exhausted")),
                    );
                }
                let new_version = e.version + 1;
                proof {
                    assert(crate::store::record_wf(store@.entities[i as int]));
                }
                let fields = merged_note_fields(&e.fields, req);
                let created_at = e.created_at;
                let resp = note_response_of(note_id, &fields, created_at, now, new_version);
                let affected = store.overwrite(
                    owner,
                    EntityType::Note,
                    note_id,
                    fields,
                    new_version,
                    now,
                );
                proof {
                    assert(affected);
                    assert forall|j: int|
                        0 <= j < final(store)@.entities.len() implies crate::store::record_wf(
                        #[trigger] final(store)@.entities[j],
                    ) by {
                        assert(crate::store::record_wf(old(store)@.entities[j]));
                    }
                }
                Ok(resp)
            } else {
                Err(AppError::NotFound(String::from_str("Note not found")))
            }
        },
        None => Err(AppError::NotFound(String::from_str("Note not found"))),
    }
}

/// Soft-delete one of the caller's live notes, advancing its version by
/// one.
pub fn delete_note(store: &mut EntityStore, owner: u128, note_id: u128, now: i64) -> (r: Result<
    (),
    AppError,
>)
    ensures
        final(store)@.users == old(store)@.users,
        table_wf(old(store)@.entities) ==> table_wf(final(store)@.entities),
        (match r {
            Ok(()) => ({
                let vis = spec_visible(old(store)@.entities, owner, EntityType::Note, note_id);
                let i = vis.unwrap();
                let prior = old(store)@.entities[i];
                &&& vis is Some
                &&& prior.version < u32::MAX
                &&& final(store)@.entities == old(store)@.entities.update(
                    i,
                    (RecordView {
                        version: (prior.version + 1) as u32,
                        deleted_at: Some(now),
                        ..prior
                    }),
                )
            }),
            Err(e) => final(store)@ == old(store)@ && ({
                let vis = spec_visible(old(store)@.entities, owner, EntityType::Note, note_id);
                match e@ {
                    ErrorView::NotFound(m) => vis is None && m == "Note not found"@,
                    ErrorView::Database(_) => vis is Some && old(store)@.entities[vis.unwrap()].version
                        == u32::MAX,
                    _ => false,
                }
            }),
        }),
{
    match store.find_index(EntityType::Note, note_id) {
        Some(i) => {
            let e = &store.entities[i];
            if e.owner == owner && e.deleted_at.is_none() {
                if e.version == u32::MAX {
                    return Err(
                        AppError::Database(String::from_str("note version counter exhausted")),
                    );
                }
                let new_version = e.version + 1;
                let affected = store.soft_delete(owner, EntityType::Note, note_id, new_version, now);
                proof {
                    assert(affected);
                    if table_wf(old(store)@.entities) {
                        assert forall|j: int|
                            0 <= j < final(store)@.entities.len() implies crate::store::record_wf(
                            #[trigger] final(store)@.entities[j],
                        ) by {
                            assert(crate::store::record_wf(old(store)@.entities[j]));
                        }
                    }
                }
                Ok(())
            } else {
                Err(AppError::NotFound(String::from_str("Note not found")))
            }
        },
        None => Err(AppError::NotFound(String::from_str("Note not found"))),
    }
}


/// Build a task report from its parts.
fn task_response_of(
    id: u128,
    fields: &EntityFields,
    created_at: i64,
    updated_at: i64,
    version: u32,
) -> (r: TaskResponse)
    requires
        fields@ is Task,
    ensures
        r@ == (TaskResponseView {
            id: id,
            title: fields@->Task_title,
            description: fields@->Task_description,
            status: fields@->Task_status,
            priority: fields@->Task_priority,
            created_at: created_at,
            updated_at: updated_at,
            version: version,
        }),
{
    match fields {
        EntityFields::Task { title, description, status, priority } => TaskResponse {
            id,
            title: title.clone(),
            description: description.clone(),
            status: *status,
            priority: *priority,
            created_at,
            updated_at,
            version,
        },
        _ => vstd::pervasive::unreached(),
    }
}

/// Report a stored task row.
fn task_response(e: &StoredEntity) -> (r: TaskResponse)
    requires
        e@.fields is Task,
    ensures
        r@ == spec_task_response(e@),
{
    task_response_of(e.id, &e.fields, e.created_at, e.updated_at, e.version)
}

/// The row a direct task creation appends: version 1, live, timestamped
/// now.
pub open spec fn spec_created_task(
    owner: u128,
    id: u128,
    req: crate::model::CreateTaskRequestView,
    now: i64,
) -> RecordView {
    RecordView {
        kind: EntityType::Task,
        id: id,
        owner: owner,
        version: 1,
        created_at: now,
        updated_at: now,
        deleted_at: None,
        fields: FieldsView::Task {
            title: req.title,
            description: req.description,
            status: req.status,
            priority: req.priority,
        },
    }
}

/// List the caller's live tasks, optionally filtered by status, paged by
/// offset and limit (defaults 0 and 50).  Rows come in table order.
/// Negative page bounds are refused as a store error.
pub fn list_tasks(store: &EntityStore, owner: u128, query: &TasksQuery) -> (r: Result<
    Vec<TaskResponse>,
    AppError,
>)
    requires
        table_wf(store@.entities),
    ensures
        ({
            let limit = or_default(query.limit, 50);
            let offset = or_default(query.offset, 0);
            match r {
                Ok(out) => limit >= 0 && offset >= 0 && out.deep_view() == spec_page(
                    spec_list_tasks(store@.entities, owner, query.status),
                    offset as int,
                    limit as int,
                ),
                Err(e) => (limit < 0 || offset < 0) && e@ is Database,
            }
        }),
{
    let limit: i64 = match query.limit {
        Some(l) => l,
        None => 50,
    };
    let offset: i64 = match query.offset {
        Some(o) => o,
        None => 0,
    };
    if limit < 0 || offset < 0 {
        return Err(AppError::Database(String::from_str("page bounds must not be negative")));
    }
    let all = collect_tasks(store, owner, query.status);
    Ok(page_tasks(all, offset, limit))
}

/// Collect the caller's live tasks matching the status filter, unpaged.
pub fn collect_tasks(store: &EntityStore, owner: u128, status: Option<TaskStatus>) -> (all: Vec<
    TaskResponse,
>)
    requires
        table_wf(store@.entities),
    ensures
        all.deep_view() == spec_list_tasks(store@.entities, owner, status),
{
    let mut all: Vec<TaskResponse> = Vec::new();
    let n = store.entities.len();
    let mut i: usize = 0;
    proof {
        assert(store@.entities.take(0) =~= Seq::<RecordView>::empty());
        assert(all.deep_view() =~= Seq::<TaskResponseView>::empty());
    }
    while i < n
        invariant
            n == store.entities.len(),
            i <= n,
            table_wf(store@.entities),
            all.deep_view() == spec_list_tasks(store@.entities.take(i as int), owner, status),
        decreases n - i,
    {
        let ghost taken = store@.entities.take(i as int + 1);
        proof {
            assert(taken.drop_last() =~= store@.entities.take(i as int));
            assert(taken.last() == store@.entities[i as int]);
            assert(crate::store::record_wf(store@.entities[i as int]));
        }
        let e = &store.entities[i];
        if matches!(e.kind, EntityType::Task) && e.owner == owner && e.deleted_at.is_none() {
            let hit = match status {
                Some(st) => match &e.fields {
                    EntityFields::Task { status: stored, .. } => *stored == st,
                    _ => vstd::pervasive::unreached(),
                },
                None => true,
            };
            if hit {
                let ghost prev = all.deep_view();
                let resp = task_response(e);
                let ghost rv = resp@;
                all.push(resp);
                proof {
                    assert(all.deep_view() =~= prev.push(rv));
                }
            }
        }
        i = i + 1;
    }
    proof {
        assert(store@.entities.take(n as int) =~= store@.entities);
    }
    all
}

/// Clip a task listing to the page `[offset, offset + limit)`.
fn page_tasks(all: Vec<TaskResponse>, offset: i64, limit: i64) -> (out: Vec<TaskResponse>)
    requires
        offset >= 0,
        limit >= 0,
    ensures
        out.deep_view() == spec_page(all.deep_view(), offset as int, limit as int),
{
    let ghost full = all.deep_view();
    let mut all = all;
    let off: usize = if offset as u64 >= all.len() as u64 {
        all.len()
    } else {
        offset as usize
    };
    let mut tail = all.split_off(off);
    if (limit as u64) < (tail.len() as u64) {
        tail.truncate(limit as usize);
    }
    proof {
        assert(tail.deep_view() =~= spec_page(full, offset as int, limit as int));
    }
    tail
}

/// Fetch one of the caller's live tasks by id.
pub fn get_task(store: &EntityStore, owner: u128, task_id: u128) -> (r: Result<
    TaskResponse,
    AppError,
>)
    requires
        table_wf(store@.entities),
    ensures
        (match r {
            Ok(resp) => spec_visible(store@.entities, owner, EntityType::Task, task_id) is Some
                && resp@ == spec_task_response(
                store@.entities[spec_visible(
                    store@.entities,
                    owner,
                    EntityType::Task,
                    task_id,
                ).unwrap()],
            ),
            Err(e) => spec_visible(store@.entities, owner, EntityType::Task, task_id) is None && e@
                == ErrorView::NotFound("Task not found"@),
        }),
{
    match store.find_index(EntityType::Task, task_id) {
        Some(i) => {
            let e = &store.entities[i];
            if e.owner == owner && e.deleted_at.is_none() {
                proof {
                    assert(crate::store::record_wf(store@.entities[i as int]));
                }
                Ok(task_response(e))
            } else {
                Err(AppError::NotFound(String::from_str("Task not found")))
            }
        },
        None => Err(AppError::NotFound(String::from_str("Task not found"))),
    }
}

/// Create a task for the caller at version 1.  Refused as a store error when
/// the id is already taken.
pub fn create_task(
    store: &mut EntityStore,
    owner: u128,
    task_id: u128,
    req: CreateTaskRequest,
    now: i64,
) -> (r: Result<TaskResponse, AppError>)
    ensures
        final(store)@.users == old(store)@.users,
        table_wf(old(store)@.entities) ==> table_wf(final(store)@.entities),
        (match r {
            Ok(resp) => spec_find(old(store)@.entities, EntityType::Task, task_id) is None
                && final(store)@.entities == old(store)@.entities.push(
                spec_created_task(owner, task_id, req@, now),
            ) && resp@ == spec_task_response(spec_created_task(owner, task_id, req@, now)),
            Err(e) => spec_find(old(store)@.entities, EntityType::Task, task_id) is Some
                && final(store)@ == old(store)@ && e@ is Database,
        }),
{
    let record = StoredEntity {
        kind: EntityType::Task,
        id: task_id,
        owner,
        version: 1,
        created_at: now,
        updated_at: now,
        deleted_at: None,
        fields: EntityFields::Task {
            title: req.title,
            description: req.description,
            status: req.status,
            priority: req.priority,
        },
    };
    let resp = task_response(&record);
    match store.insert(record) {
        Ok(()) => {
            proof {
                let pushed = old(store)@.entities.push(spec_created_task(owner, task_id, req@, now));
                assert(final(store)@.entities =~= pushed);
                if table_wf(old(store)@.entities) {
                    assert forall|j: int|
                        0 <= j < final(store)@.entities.len() implies crate::store::record_wf(
                        #[trigger] final(store)@.entities[j],
                    ) by {
                        if j < old(store)@.entities.len() {
                            assert(crate::store::record_wf(old(store)@.entities[j]));
                        }
                    }
                }
            }
            Ok(resp)
        },
        Err(e) => Err(e),
    }
}

/// The merged task fields of a version-checked update: only title and
/// description are writable here.
fn merged_task_fields(old_fields: &EntityFields, req: &UpdateTaskRequest) -> (f: EntityFields)
    requires
        old_fields@ is Task,
    ensures
        f@ == spec_merged_task(old_fields@, req@),
{
    match old_fields {
        EntityFields::Task { title, description, status, priority } => EntityFields::Task {
            title: match &req.title {
                Some(t) => t.clone(),
                None => title.clone(),
            },
            description: match &req.description {
                Some(d) => d.clone(),
                None => description.clone(),
            },
            status: *status,
            priority: *priority,
        },
        _ => vstd::pervasive::unreached(),
    }
}

/// Update one of the caller's live tasks, version-checked: accepted only
/// when the submitted version equals the stored one, and then the version
/// advances by one.  Only the title and the description are writable on
/// this path; a submitted status or priority is ignored, as the row keeps
/// its stored discriminants.
pub fn update_task(
    store: &mut EntityStore,
    owner: u128,
    task_id: u128,
    req: &UpdateTaskRequest,
    now: i64,
) -> (r: Result<TaskResponse, AppError>)
    requires
        table_wf(old(store)@.entities),
    ensures
        final(store)@.users == old(store)@.users,
        table_wf(final(store)@.entities),
        (match r {
            Ok(resp) => ({
                let vis = spec_visible(old(store)@.entities, owner, EntityType::Task, task_id);
                let i = vis.unwrap();
                let prior = old(store)@.entities[i];
                let updated = RecordView {
                    fields: spec_merged_task(prior.fields, req@),
                    version: (prior.version + 1) as u32,
                    updated_at: now,
                    ..prior
                };
                &&& vis is Some
                &&& prior.version == req.version
                &&& prior.version < u32::MAX
                &&& final(store)@.entities == old(store)@.entities.update(i, updated)
                &&& resp@ == spec_task_response(updated)
            }),
            Err(e) => final(store)@ == old(store)@ && ({
                let vis = spec_visible(old(store)@.entities, owner, EntityType::Task, task_id);
                match e@ {
                    ErrorView::NotFound(m) => vis is None && m == "Task not found"@,
                    ErrorView::Conflict(m) => vis is Some && old(store)@.entities[vis.unwrap()].version
                        != req.version && m == "Task has been modified by another client"@,
                    ErrorView::Database(_) => vis is Some && old(store)@.entities[vis.unwrap()].version
                        == req.version && req.version == u32::MAX,
                    _ => false,
                }
            }),
        }),
{
    match store.find_index(EntityType::Task, task_id) {
        Some(i) => {
            let e = &store.entities[i];
            if e.owner == owner && e.deleted_at.is_none() {
                if e.version != req.version {
                    return Err(
                        AppError::Conflict(
                            String::from_str("Task has been modified by another client"),
                        ),
                    );
                }
                if e.version == u32::MAX {
                    return Err(
                        AppError::Database(String::from_str("task version counter exhausted")),
                    );
                }
                let new_version = e.version + 1;
                proof {
                    assert(crate::store::record_wf(store@.entities[i as int]));
                }
                let fields = merged_task_fields(&e.fields, req);
                let created_at = e.created_at;
                let resp = task_response_of(task_id, &fields, created_at, now, new_version);
                let affected = store.overwrite(
                    owner,
                    EntityType::Task,
                    task_id,
                    fields,
                    new_version,
                    now,
                );
                proof {
                    assert(affected);
                    assert forall|j: int|
                        0 <= j < final(store)@.entities.len() implies crate::store::record_wf(
                        #[trigger] final(store)@.entities[j],
                    ) by {
                        assert(crate::store::record_wf(old(store)@.entities[j]));
                    }
                }
                Ok(resp)
            } else {
                Err(AppError::NotFound(String::from_str("Task not found")))
            }
        },
        None => Err(AppError::NotFound(String::from_str("Task not found"))),
    }
}

/// Soft-delete one of the caller's live tasks, advancing its version by
/// one.
pub fn delete_task(store: &mut EntityStore, owner: u128, task_id: u128, now: i64) -> (r: Result<
    (),
    AppError,
>)
    ensures
        final(store)@.users == old(store)@.users,
        table_wf(old(store)@.entities) ==> table_wf(final(store)@.entities),
        (match r {
            Ok(()) => ({
                let vis = spec_visible(old(store)@.entities, owner, EntityType::Task, task_id);
                let i = vis.unwrap();
                let prior = old(store)@.entities[i];
                &&& vis is Some
                &&& prior.version < u32::MAX
                &&& final(store)@.entities == old(store)@.entities.update(
                    i,
                    (RecordView {
                        version: (prior.version + 1) as u32,
                        deleted_at: Some(now),
                        ..prior
                    }),
                )
            }),
            Err(e) => final(store)@ == old(store)@ && ({
                let vis = spec_visible(old(store)@.entities, owner, EntityType::Task, task_id);
                match e@ {
                    ErrorView::NotFound(m) => vis is None && m == "Task not found"@,
                    ErrorView::Database(_) => vis is Some && old(store)@.entities[vis.unwrap()].version
                        == u32::MAX,
                    _ => false,
                }
            }),
        }),
{
    match store.find_index(EntityType::Task, task_id) {
        Some(i) => {
            let e = &store.entities[i];
            if e.owner == owner && e.deleted_at.is_none() {
                if e.version == u32::MAX {
                    return Err(
                        AppError::Database(String::from_str("task version counter exhausted")),
                    );
                }
                let new_version = e.version + 1;
                let affected = store.soft_delete(owner, EntityType::Task, task_id, new_version, now);
                proof {
                    assert(affected);
                    if table_wf(old(store)@.entities) {
                        assert forall|j: int|
                            0 <= j < final(store)@.entities.len() implies crate::store::record_wf(
                            #[trigger] final(store)@.entities[j],
                        ) by {
                            assert(crate::store::record_wf(old(store)@.entities[j]));
                        }
                    }
                }
                Ok(())
            } else {
                Err(AppError::NotFound(String::from_str("Task not found")))
            }
        },
        None => Err(AppError::NotFound(String::from_str("Task not found"))),
    }
}

/// Build a habit report from its parts.
fn habit_response_of(
    id: u128,
    fields: &EntityFields,
    created_at: i64,
    updated_at: i64,
    version: u32,
) -> (r: HabitResponse)
    requires
        fields@ is Habit,
    ensures
        r@ == (HabitResponseView {
            id: id,
            name: fields@->Habit_name,
            color: fields@->Habit_color,
            streak: fields@->Habit_streak,
            completed_dates: fields@->Habit_completed_dates,
            created_at: created_at,
            updated_at: updated_at,
            version: version,
        }),
{
    match fields {
        EntityFields::Habit { name, color, streak, completed_dates } => HabitResponse {
            id,
            name: name.clone(),
            color: color.clone(),
            streak: *streak,
            completed_dates: clone_string_vec(completed_dates),
            created_at,
            updated_at,
            version,
        },
        _ => vstd::pervasive::unreached(),
    }
}

/// Report a stored habit row.
fn habit_response(e: &StoredEntity) -> (r: HabitResponse)
    requires
        e@.fields is Habit,
    ensures
        r@ == spec_habit_response(e@),
{
    habit_response_of(e.id, &e.fields, e.created_at, e.updated_at, e.version)
}

/// The row a direct habit creation appends: version 1, live, timestamped
/// now, with a fresh streak and no completed dates.
pub open spec fn spec_created_habit(
    owner: u128,
    id: u128,
    req: crate::model::CreateHabitRequestView,
    now: i64,
) -> RecordView {
    RecordView {
        kind: EntityType::Habit,
        id: id,
        owner: owner,
        version: 1,
        created_at: now,
        updated_at: now,
        deleted_at: None,
        fields: FieldsView::Habit {
            name: req.name,
            color: req.color,
            streak: 0,
            completed_dates: Seq::empty(),
        },
    }
}

/// List the caller's live habits, in table order.
pub fn list_habits(store: &EntityStore, owner: u128) -> (r: Vec<HabitResponse>)
    requires
        table_wf(store@.entities),
    ensures
        r.deep_view() == spec_list_habits(store@.entities, owner),
{
    let mut all: Vec<HabitResponse> = Vec::new();
    let n = store.entities.len();
    let mut i: usize = 0;
    proof {
        assert(store@.entities.take(0) =~= Seq::<RecordView>::empty());
        assert(all.deep_view() =~= Seq::<HabitResponseView>::empty());
    }
    while i < n
        invariant
            n == store.entities.len(),
            i <= n,
            table_wf(store@.entities),
            all.deep_view() == spec_list_habits(store@.entities.take(i as int), owner),
        decreases n - i,
    {
        let ghost taken = store@.entities.take(i as int + 1);
        proof {
            assert(taken.drop_last() =~= store@.entities.take(i as int));
            assert(taken.last() == store@.entities[i as int]);
            assert(crate::store::record_wf(store@.entities[i as int]));
        }
        let e = &store.entities[i];
        if matches!(e.kind, EntityType::Habit) && e.owner == owner && e.deleted_at.is_none() {
            let ghost prev = all.deep_view();
            let resp = habit_response(e);
            let ghost rv = resp@;
            all.push(resp);
            proof {
                assert(all.deep_view() =~= prev.push(rv));
            }
        }
        i = i + 1;
    }
    proof {
        assert(store@.entities.take(n as int) =~= store@.entities);
    }
    all
}

/// Fetch one of the caller's live habits by id.
pub fn get_habit(store: &EntityStore, owner: u128, habit_id: u128) -> (r: Result<
    HabitResponse,
    AppError,
>)
    requires
        table_wf(store@.entities),
    ensures
        (match r {
            Ok(resp) => spec_visible(store@.entities, owner, EntityType::Habit, habit_id) is Some
                && resp@ == spec_habit_response(
                store@.entities[spec_visible(
                    store@.entities,
                    owner,
                    EntityType::Habit,
                    habit_id,
                ).unwrap()],
            ),
            Err(e) => spec_visible(store@.entities, owner, EntityType::Habit, habit_id) is None
                && e@ == ErrorView::NotFound("Habit not found"@),
        }),
{
    match store.find_index(EntityType::Habit, habit_id) {
        Some(i) => {
            let e = &store.entities[i];
            if e.owner == owner && e.deleted_at.is_none() {
                proof {
                    assert(crate::store::record_wf(store@.entities[i as int]));
                }
                Ok(habit_response(e))
            } else {
                Err(AppError::NotFound(String::from_str("Habit not found")))
            }
        },
        None => Err(AppError::NotFound(String::from_str("Habit not found"))),
    }
}

/// Create a habit for the caller at version 1.  Refused as a store error
/// when the id is already taken.
pub fn create_habit(
    store: &mut EntityStore,
    owner: u128,
    habit_id: u128,
    req: CreateHabitRequest,
    now: i64,
) -> (r: Result<HabitResponse, AppError>)
    ensures
        final(store)@.users == old(store)@.users,
        table_wf(old(store)@.entities) ==> table_wf(final(store)@.entities),
        (match r {
            Ok(resp) => spec_find(old(store)@.entities, EntityType::Habit, habit_id) is None
                && final(store)@.entities == old(store)@.entities.push(
                spec_created_habit(owner, habit_id, req@, now),
            ) && resp@ == spec_habit_response(spec_created_habit(owner, habit_id, req@, now)),
            Err(e) => spec_find(old(store)@.entities, EntityType::Habit, habit_id) is Some
                && final(store)@ == old(store)@ && e@ is Database,
        }),
{
    let completed_dates: Vec<String> = Vec::new();
    proof {
        assert(completed_dates.deep_view() =~= Seq::<Seq<char>>::empty());
    }
    let record = StoredEntity {
        kind: EntityType::Habit,
        id: habit_id,
        owner,
        version: 1,
        created_at: now,
        updated_at: now,
        deleted_at: None,
        fields: EntityFields::Habit { name: req.name, color: req.color, streak: 0, completed_dates },
    };
    let resp = habit_response(&record);
    match store.insert(record) {
        Ok(()) => {
            proof {
                let pushed = old(store)@.entities.push(
                    spec_created_habit(owner, habit_id, req@, now),
                );
                assert(final(store)@.entities =~= pushed);
                if table_wf(old(store)@.entities) {
                    assert forall|j: int|
                        0 <= j < final(store)@.entities.len() implies crate::store::record_wf(
                        #[trigger] final(store)@.entities[j],
                    ) by {
                        if j < old(store)@.entities.len() {
                            assert(crate::store::record_wf(old(store)@.entities[j]));
                        }
                    }
                }
            }
            Ok(resp)
        },
        Err(e) => Err(e),
    }
}

/// The merged habit fields of a version-checked update.
fn merged_habit_fields(old_fields: &EntityFields, req: &UpdateHabitRequest) -> (f: EntityFields)
    requires
        old_fields@ is Habit,
    ensures
        f@ == spec_merged_habit(old_fields@, req@),
{
    match old_fields {
        EntityFields::Habit { name, color, streak, completed_dates } => EntityFields::Habit {
            name: match &req.name {
                Some(x) => x.clone(),
                None => name.clone(),
            },
            color: match &req.color {
                Some(x) => x.clone(),
                None => color.clone(),
            },
            streak: match req.streak {
                Some(x) => x,
                None => *streak,
            },
            completed_dates: match &req.completed_dates {
                Some(x) => clone_string_vec(x),
                None => clone_string_vec(completed_dates),
            },
        },
        _ => vstd::pervasive::unreached(),
    }
}

/// Update one of the caller's live habits, version-checked: accepted only
/// when the submitted version equals the stored one, and then the version
/// advances by one.  Absent fields keep their stored values.
pub fn update_habit(
    store: &mut EntityStore,
    owner: u128,
    habit_id: u128,
    req: &UpdateHabitRequest,
    now: i64,
) -> (r: Result<HabitResponse, AppError>)
    requires
        table_wf(old(store)@.entities),
    ensures
        final(store)@.users == old(store)@.users,
        table_wf(final(store)@.entities),
        (match r {
            Ok(resp) => ({
                let vis = spec_visible(old(store)@.entities, owner, EntityType::Habit, habit_id);
                let i = vis.unwrap();
                let prior = old(store)@.entities[i];
                let updated = RecordView {
                    fields: spec_merged_habit(prior.fields, req@),
                    version: (prior.version + 1) as u32,
                    updated_at: now,
                    ..prior
                };
                &&& vis is Some
                &&& prior.version == req.version
                &&& prior.version < u32::MAX
                &&& final(store)@.entities == old(store)@.entities.update(i, updated)
                &&& resp@ == spec_habit_response(updated)
            }),
            Err(e) => final(store)@ == old(store)@ && ({
                let vis = spec_visible(old(store)@.entities, owner, EntityType::Habit, habit_id);
                match e@ {
                    ErrorView::NotFound(m) => vis is None && m == "Habit not found"@,
                    ErrorView::Conflict(m) => vis is Some && old(store)@.entities[vis.unwrap()].version
                        != req.version && m == "Habit has been modified by another client"@,
                    ErrorView::Database(_) => vis is Some && old(store)@.entities[vis.unwrap()].version
                        == req.version && req.version == u32::MAX,
                    _ => false,
                }
            }),
        }),
{
    match store.find_index(EntityType::Habit, habit_id) {
        Some(i) => {
            let e = &store.entities[i];
            if e.owner == owner && e.deleted_at.is_none() {
                if e.version != req.version {
                    return Err(
                        AppError::Conflict(
                            String::from_str("Habit has been modified by another client"),
                        ),
                    );
                }
                if e.version == u32::MAX {
                    return Err(
                        AppError::Database(String::from_str("habit version counter exhausted")),
                    );
                }
                let new_version = e.version + 1;
                proof {
                    assert(crate::store::record_wf(store@.entities[i as int]));
                }
                let fields = merged_habit_fields(&e.fields, req);
                let created_at = e.created_at;
                let resp = habit_response_of(habit_id, &fields, created_at, now, new_version);
                let affected = store.overwrite(
                    owner,
                    EntityType::Habit,
                    habit_id,
                    fields,
                    new_version,
                    now,
                );
                proof {
                    assert(affected);
                    assert forall|j: int|
                        0 <= j < final(store)@.entities.len() implies crate::store::record_wf(
                        #[trigger] final(store)@.entities[j],
                    ) by {
                        assert(crate::store::record_wf(old(store)@.entities[j]));
                    }
                }
                Ok(resp)
            } else {
                Err(AppError::NotFound(String::from_str("Habit not found")))
            }
        },
        None => Err(AppError::NotFound(String::from_str("Habit not found"))),
    }
}

/// Soft-delete one of the caller's live habits, advancing its version by
/// one.
pub fn delete_habit(store: &mut EntityStore, owner: u128, habit_id: u128, now: i64) -> (r: Result<
    (),
    AppError,
>)
    ensures
        final(store)@.users == old(store)@.users,
        table_wf(old(store)@.entities) ==> table_wf(final(store)@.entities),
        (match r {
            Ok(()) => ({
                let vis = spec_visible(old(store)@.entities, owner, EntityType::Habit, habit_id);
                let i = vis.unwrap();
                let prior = old(store)@.entities[i];
                &&& vis is Some
                &&& prior.version < u32::MAX
                &&& final(store)@.entities == old(store)@.entities.update(
                    i,
                    (RecordView {
                        version: (prior.version + 1) as u32,
                        deleted_at: Some(now),
                        ..prior
                    }),
                )
            }),
            Err(e) => final(store)@ == old(store)@ && ({
                let vis = spec_visible(old(store)@.entities, owner, EntityType::Habit, habit_id);
                match e@ {
                    ErrorView::NotFound(m) => vis is None && m == "Habit not found"@,
                    ErrorView::Database(_) => vis is Some && old(store)@.entities[vis.unwrap()].version
                        == u32::MAX,
                    _ => false,
                }
            }),
        }),
{
    match store.find_index(EntityType::Habit, habit_id) {
        Some(i) => {
            let e = &store.entities[i];
            if e.owner == owner && e.deleted_at.is_none() {
                if e.version == u32::MAX {
                    return Err(
                        AppError::Database(String::from_str("habit version counter exhausted")),
                    );
                }
                let new_version = e.version + 1;
                let affected = store.soft_delete(
                    owner,
                    EntityType::Habit,
                    habit_id,
                    new_version,
                    now,
                );
                proof {
                    assert(affected);
                    if table_wf(old(store)@.entities) {
                        assert forall|j: int|
                            0 <= j < final(store)@.entities.len() implies crate::store::record_wf(
                            #[trigger] final(store)@.entities[j],
                        ) by {
                            assert(crate::store::record_wf(old(store)@.entities[j]));
                        }
                    }
                }
                Ok(())
            } else {
                Err(AppError::NotFound(String::from_str("Habit not found")))
            }
        },
        None => Err(AppError::NotFound(String::from_str("Habit not found"))),
    }
}

} // verus!


