//! The per-entity sync executor: field projection and the four store
//! operations a resolved decision maps to.
//!
//! Each entity kind projects its fields out of the client's associative
//! payload, substituting documented defaults for absent fields: absent
//! title/name becomes the placeholder `"Untitled"`, absent strings become
//! empty, absent collections become empty, absent booleans become false,
//! absent streaks become zero, and an absent task priority becomes `Medium`.
//! A task's status is the one discriminant with no safe default: a non-delete
//! task submission without one is rejected as a validation error.

use vstd::prelude::*;

use crate::errors::{AppError, ErrorView};
use crate::model::{
    EntityFields, EntityType, FieldsView, ItemView, Payload, PayloadView, RecordView, ResultView,
    StoredEntity, SyncAction, SyncItem, SyncResult, lemma_cloned_string_vec,
};
use crate::store::{EntityStore, spec_find};

verus! {

/// The option's value, or the given default.
pub open spec fn or_default<A>(o: Option<A>, d: A) -> A {
    match o {
        Some(x) => x,
        None => d,
    }
}

/// Note fields projected from a payload, defaults substituted.
pub open spec fn spec_note_fields(d: PayloadView) -> FieldsView {
    FieldsView::Note {
        title: or_default(d.title, "Untitled"@),
        content: or_default(d.content, Seq::empty()),
        tags: or_default(d.tags, Seq::empty()),
        is_encrypted: or_default(d.is_encrypted, false),
    }
}

/// Task fields projected from a payload; nothing when the status
/// discriminant is absent.
pub open spec fn spec_task_fields(d: PayloadView) -> Option<FieldsView> {
    match d.status {
        Some(status) => Some(
            FieldsView::Task {
                title: or_default(d.title, "Untitled"@),
                description: or_default(d.description, Seq::empty()),
                status: status,
                priority: or_default(d.priority, crate::model::TaskPriority::Medium),
            },
        ),
        None => None,
    }
}

/// Habit fields projected from a payload, defaults substituted.
pub open spec fn spec_habit_fields(d: PayloadView) -> FieldsView {
    FieldsView::Habit {
        name: or_default(d.name, "Untitled"@),
        color: or_default(d.color, Seq::empty()),
        streak: or_default(d.streak, 0),
        completed_dates: or_default(d.completed_dates, Seq::empty()),
    }
}

/// Fields projected from a payload for the given kind; nothing exactly when
/// a required discriminant is absent.
pub open spec fn spec_extract(kind: EntityType, d: PayloadView) -> Option<FieldsView> {
    match kind {
        EntityType::Note => Some(spec_note_fields(d)),
        EntityType::Task => spec_task_fields(d),
        EntityType::Habit => Some(spec_habit_fields(d)),
    }
}

/// The fields a record created from a payload-less deletion carries: the
/// projection of an empty payload, with a task's status defaulting to
/// `Todo`.  The payload of a deletion is irrelevant, so these defaults are
/// used for every record that is created already tombstoned.
pub open spec fn spec_default_fields(kind: EntityType) -> FieldsView {
    match kind {
        EntityType::Note => spec_note_fields(PayloadView::empty()),
        EntityType::Task => (FieldsView::Task {
            title: "Untitled"@,
            description: Seq::empty(),
            status: crate::model::TaskStatus::Todo,
            priority: crate::model::TaskPriority::Medium,
        }),
        EntityType::Habit => spec_habit_fields(PayloadView::empty()),
    }
}

/// The row a `Create` decision appends: versioned as submitted, timestamped
/// now, and tombstoned from birth when the client's intent was a deletion.
pub open spec fn spec_created_record(
    owner: u128,
    kind: EntityType,
    item: ItemView,
    fields: FieldsView,
    now: i64,
) -> RecordView {
    RecordView {
        kind: kind,
        id: item.id,
        owner: owner,
        version: item.version,
        created_at: now,
        updated_at: now,
        deleted_at: if item.deleted {
            Some(now)
        } else {
            None
        },
        fields: fields,
    }
}

/// Message used when a non-delete submission carries no payload.
pub open spec fn spec_data_required_msg(kind: EntityType) -> Seq<char> {
    match kind {
        EntityType::Note => "Note data is required for non-delete operations"@,
        EntityType::Task => "Task data is required for non-delete operations"@,
        EntityType::Habit => "Habit data is required for non-delete operations"@,
    }
}

/// Message used when a task submission carries no status.
pub open spec fn spec_status_required_msg() -> Seq<char> {
    "Task status is required"@
}

/// Copy an optional string, defaulting to the given literal when absent.
fn string_or_default(o: &Option<String>, d: &str) -> (r: String)
    ensures
        r@ == or_default(o.deep_view(), d@),
{
    match o {
        Some(s) => s.clone(),
        None => String::from_str(d),
    }
}

/// Copy an optional string, defaulting to empty when absent.
fn string_or_empty(o: &Option<String>) -> (r: String)
    ensures
        r@ == or_default(o.deep_view(), Seq::empty()),
{
    match o {
        Some(s) => s.clone(),
        None => String::new(),
    }
}

/// Copy an optional string vector, defaulting to empty when absent.
fn strings_or_empty(o: &Option<Vec<String>>) -> (r: Vec<String>)
    ensures
        r.deep_view() == or_default(o.deep_view(), Seq::empty()),
{
    match o {
        Some(v) => {
            let r = v.clone();
            proof {
                lemma_cloned_string_vec(*v, r);
            }
            r
        },
        None => {
            let r: Vec<String> = Vec::new();
            proof {
                assert(r.deep_view() =~= Seq::<Seq<char>>::empty());
            }
            r
        },
    }
}

/// Project the fields of the given kind out of a payload.
pub fn extract_fields(kind: EntityType, data: &Payload) -> (r: Result<EntityFields, AppError>)
    ensures
        (match r {
            Ok(f) => spec_extract(kind, data@) == Some(f@),
            Err(e) => spec_extract(kind, data@) is None && e@ == ErrorView::Validation(
                spec_status_required_msg(),
            ),
        }),
{
    match kind {
        EntityType::Note => {
            let f = EntityFields::Note {
                title: string_or_default(&data.title, "Untitled"),
                content: string_or_empty(&data.content),
                tags: strings_or_empty(&data.tags),
                is_encrypted: match data.is_encrypted {
                    Some(b) => b,
                    None => false,
                },
            };
            Ok(f)
        },
        EntityType::Task => {
            match data.status {
                Some(status) => {
                    let f = EntityFields::Task {
                        title: string_or_default(&data.title, "Untitled"),
                        description: string_or_empty(&data.description),
                        status: status,
                        priority: match data.priority {
                            Some(p) => p,
                            None => crate::model::TaskPriority::Medium,
                        },
                    };
                    Ok(f)
                },
                None => Err(AppError::Validation(String::from_str("Task status is required"))),
            }
        },
        EntityType::Habit => {
            let f = EntityFields::Habit {
                name: string_or_default(&data.name, "Untitled"),
                color: string_or_empty(&data.color),
                streak: match data.streak {
                    Some(s) => s,
                    None => 0,
                },
                completed_dates: strings_or_empty(&data.completed_dates),
            };
            Ok(f)
        },
    }
}

/// The defaulted fields carried by a record created from a deletion.
pub fn default_fields(kind: EntityType) -> (f: EntityFields)
    ensures
        f@ == spec_default_fields(kind),
{
    match kind {
        EntityType::Note => {
            let tags: Vec<String> = Vec::new();
            proof {
                assert(tags.deep_view() =~= Seq::<Seq<char>>::empty());
            }
            EntityFields::Note {
                title: String::from_str("Untitled"),
                content: String::new(),
                tags,
                is_encrypted: false,
            }
        },
        EntityType::Task => EntityFields::Task {
            title: String::from_str("Untitled"),
            description: String::new(),
            status: crate::model::TaskStatus::Todo,
            priority: crate::model::TaskPriority::Medium,
        },
        EntityType::Habit => {
            let completed_dates: Vec<String> = Vec::new();
            proof {
                assert(completed_dates.deep_view() =~= Seq::<Seq<char>>::empty());
            }
            EntityFields::Habit {
                name: String::from_str("Untitled"),
                color: String::new(),
                streak: 0,
                completed_dates,
            }
        },
    }
}

/// Apply a `Create` decision: append a fresh row for the item and report it
/// as created — or as deleted when the row is born tombstoned.
pub fn execute_create(
    store: &mut EntityStore,
    owner: u128,
    kind: EntityType,
    item: &SyncItem,
    now: i64,
) -> (r: Result<SyncResult, AppError>)
    requires
        spec_find(old(store)@.entities, kind, item.id) is None,
        item.deleted || item.data is Some,
    ensures
        final(store)@.users == old(store)@.users,
        (match r {
            Ok(res) => {
                if item@.deleted {
                    final(store)@.entities == old(store)@.entities.push(
                        spec_created_record(owner, kind, item@, spec_default_fields(kind), now),
                    ) && res@ == (ResultView {
                        id: item@.id,
                        version: item@.version,
                        action: SyncAction::Deleted,
                        data: None,
                    })
                } else {
                    spec_extract(kind, item@.data.unwrap()) is Some && final(store)@.entities
                        == old(store)@.entities.push(
                        spec_created_record(
                            owner,
                            kind,
                            item@,
                            spec_extract(kind, item@.data.unwrap()).unwrap(),
                            now,
                        ),
                    ) && res@ == (ResultView {
                        id: item@.id,
                        version: item@.version,
                        action: SyncAction::Created,
                        data: item@.data,
                    })
                }
            },
            Err(e) => !item@.deleted && spec_extract(kind, item@.data.unwrap()) is None
                && final(store)@ == old(store)@
                && e@ == ErrorView::Validation(spec_status_required_msg()),
        }),
{
    if item.deleted {
        let fields = default_fields(kind);
        let record = StoredEntity {
            kind: kind,
            id: item.id,
            owner: owner,
            version: item.version,
            created_at: now,
            updated_at: now,
            deleted_at: Some(now),
            fields,
        };
        match store.insert(record) {
            Ok(()) => Ok(SyncResult {
                id: item.id,
                version: item.version,
                action: SyncAction::Deleted,
                data: None,
            }),
            Err(e) => {
                proof {
                    assert(false);
                }
                Err(e)
            },
        }
    } else {
        let data = match &item.data {
            Some(d) => d,
            None => {
                proof {
                    assert(false);
                }
                return Err(AppError::Validation(String::new()));
            },
        };
        match extract_fields(kind, data) {
            Ok(fields) => {
                let record = StoredEntity {
                    kind: kind,
                    id: item.id,
                    owner: owner,
                    version: item.version,
                    created_at: now,
                    updated_at: now,
                    deleted_at: None,
                    fields,
                };
                match store.insert(record) {
                    Ok(()) => Ok(SyncResult {
                        id: item.id,
                        version: item.version,
                        action: SyncAction::Created,
                        data: Some(data.clone()),
                    }),
                    Err(e) => {
                        proof {
                            assert(false);
                        }
                        Err(e)
                    },
                }
            },
            Err(e) => Err(e),
        }
    }
}

/// Apply an `Update` decision to a live edit: overwrite the row's fields,
/// move its version to the submitted one, and refresh its modification
/// timestamp.
pub fn execute_update(
    store: &mut EntityStore,
    owner: u128,
    kind: EntityType,
    item: &SyncItem,
    now: i64,
) -> (r: Result<SyncResult, AppError>)
    requires
        ({
            let found = spec_find(old(store)@.entities, kind, item.id);
            found is Some && old(store)@.entities[found.unwrap()].owner == owner
        }),
        !item.deleted,
        item.data is Some,
    ensures
        final(store)@.users == old(store)@.users,
        (match r {
            Ok(res) => {
                let i = spec_find(old(store)@.entities, kind, item.id).unwrap();
                spec_extract(kind, item@.data.unwrap()) is Some
                    && final(store)@.entities == old(store)@.entities.update(
                    i,
                    (RecordView {
                        fields: spec_extract(kind, item@.data.unwrap()).unwrap(),
                        version: item@.version,
                        updated_at: now,
                        ..old(store)@.entities[i]
                    }),
                ) && res@ == (ResultView {
                    id: item@.id,
                    version: item@.version,
                    action: SyncAction::Updated,
                    data: item@.data,
                })
            },
            Err(e) => spec_extract(kind, item@.data.unwrap()) is None
                && final(store)@ == old(store)@
                && e@ == ErrorView::Validation(spec_status_required_msg()),
        }),
{
    let data = match &item.data {
        Some(d) => d,
        None => {
            proof {
                assert(false);
            }
            return Err(AppError::Validation(String::new()));
        },
    };
    match extract_fields(kind, data) {
        Ok(fields) => {
            let affected = store.overwrite(owner, kind, item.id, fields, item.version, now);
            proof {
                assert(affected);
            }
            Ok(SyncResult {
                id: item.id,
                version: item.version,
                action: SyncAction::Updated,
                data: Some(data.clone()),
            })
        },
        Err(e) => Err(e),
    }
}

/// Apply an `Update` decision whose target state is a tombstone: set the
/// soft-delete marker and move the version to the submitted one.
pub fn execute_delete(
    store: &mut EntityStore,
    owner: u128,
    kind: EntityType,
    item: &SyncItem,
    now: i64,
) -> (res: SyncResult)
    requires
        ({
            let found = spec_find(old(store)@.entities, kind, item.id);
            found is Some && old(store)@.entities[found.unwrap()].owner == owner
        }),
    ensures
        final(store)@.users == old(store)@.users,
        ({
            let i = spec_find(old(store)@.entities, kind, item.id).unwrap();
            final(store)@.entities == old(store)@.entities.update(
                i,
                (RecordView {
                    version: item@.version,
                    deleted_at: Some(now),
                    ..old(store)@.entities[i]
                }),
            )
        }),
        res@ == (ResultView {
            id: item@.id,
            version: item@.version,
            action: SyncAction::Deleted,
            data: None,
        }),
{
    let affected = store.soft_delete(owner, kind, item.id, item.version, now);
    proof {
        assert(affected);
    }
    SyncResult { id: item.id, version: item.version, action: SyncAction::Deleted, data: None }
}

/// Report a `NoChange` decision: the store already holds this version.
pub fn no_change_result(item: &SyncItem) -> (res: SyncResult)
    ensures
        res@ == (ResultView {
            id: item@.id,
            version: item@.version,
            action: SyncAction::NoChange,
            data: None,
        }),
{
    SyncResult { id: item.id, version: item.version, action: SyncAction::NoChange, data: None }
}

} // verus!
