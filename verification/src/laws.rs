//! The protocol's laws, stated and proved once and for all.
//!
//! Each law is a proof function over the step relation
//! [`spec_sync_item`](crate::sync::spec_sync_item) (and, where the law
//! speaks of the response, the one-list fold
//! [`spec_sync_list`](crate::sync::spec_sync_list)), which is exactly what
//! the executable functions' contracts are stated over.

use vstd::prelude::*;

use crate::crud::{spec_note_response, spec_visible};
use crate::executor::{or_default, spec_created_record, spec_default_fields, spec_extract};
use crate::model::{EntityType, ItemView, RecordView, ResultView, SyncAction};
use crate::resolver::{Decision, spec_resolve};
use crate::store::{
    entity_key, lemma_first_match_is, lemma_first_match_props, lemma_first_match_push,
    lemma_first_match_update, record_wf, spec_find, spec_version_of, table_wf,
};
use crate::sync::{StepOutcome, spec_sync_item, spec_sync_list};

verus! {

/// When no record exists for an item's id, the resolver decides `Create`,
/// and after the item is applied the store answers version lookups for that
/// id, scoped to the submitting owner, with exactly the submitted version.
pub proof fn lemma_create_establishes_version(
    s: Seq<RecordView>,
    owner: u128,
    kind: EntityType,
    item: ItemView,
    now: i64,
)
    requires
        spec_find(s, kind, item.id) is None,
    ensures
        spec_resolve(spec_version_of(s, owner, kind, item.id), item.version) == Decision::Create,
        spec_sync_item(s, owner, kind, item, now) matches StepOutcome::Applied {
            entities,
            result,
        } ==> spec_version_of(entities, owner, kind, item.id) == Some(item.version)
            && result.version == item.version,
{
    let step = spec_sync_item(s, owner, kind, item, now);
    if step is Applied {
        let fields = if item.deleted {
            spec_default_fields(kind)
        } else {
            spec_extract(kind, item.data.unwrap()).unwrap()
        };
        let rec = spec_created_record(owner, kind, item, fields, now);
        lemma_first_match_push(s, entity_key(kind, item.id), rec);
    }
}

/// When the store already holds exactly the submitted version and the item
/// is a well-formed edit (not a deletion, payload present), the item is
/// reported as `NoChange` and the table is left untouched — whatever the
/// payload holds.  (A payload-less non-delete item never reaches the version
/// comparison: it is rejected by validation first.)
pub proof fn lemma_equal_version_no_change(
    s: Seq<RecordView>,
    owner: u128,
    kind: EntityType,
    item: ItemView,
    now: i64,
)
    requires
        spec_version_of(s, owner, kind, item.id) == Some(item.version),
        !item.deleted,
        item.data is Some,
    ensures
        spec_sync_item(s, owner, kind, item, now) == (StepOutcome::Applied {
            entities: s,
            result: ResultView {
                id: item.id,
                version: item.version,
                action: SyncAction::NoChange,
                data: None,
            },
        }),
{
}

/// When the store's version is older than the submitted one and the item is
/// a well-formed edit, the item is reported as `Updated`, the row's version
/// becomes exactly the submitted version (not an increment of the store's),
/// and the row's fields become exactly the projection of the submitted
/// payload.
pub proof fn lemma_newer_version_updates(
    s: Seq<RecordView>,
    owner: u128,
    kind: EntityType,
    item: ItemView,
    now: i64,
)
    requires
        spec_version_of(s, owner, kind, item.id) is Some,
        spec_version_of(s, owner, kind, item.id).unwrap() < item.version,
        !item.deleted,
        item.data is Some,
        spec_extract(kind, item.data.unwrap()) is Some,
    ensures
        spec_sync_item(s, owner, kind, item, now) matches StepOutcome::Applied {
            entities,
            result,
        } && ({
            let f = spec_extract(kind, item.data.unwrap()).unwrap();
            &&& result.action == SyncAction::Updated
            &&& result.version == item.version
            &&& spec_version_of(entities, owner, kind, item.id) == Some(item.version)
            &&& spec_find(entities, kind, item.id) is Some
            &&& entities[spec_find(entities, kind, item.id).unwrap()].fields == f
        }),
{
    let i = spec_find(s, kind, item.id).unwrap();
    let f = spec_extract(kind, item.data.unwrap()).unwrap();
    let updated = RecordView { fields: f, version: item.version, updated_at: now, ..s[i] };
    lemma_first_match_props(s, entity_key(kind, item.id));
    lemma_first_match_update(s, entity_key(kind, item.id), i, updated);
}

/// When the store's version is newer than the submitted one, the item — an
/// edit or a deletion alike — is a conflict: the table is left untouched,
/// and a single-item list folds to no results, no error, and exactly one
/// conflict report carrying the store's version as `server_version` and the
/// submitted version as `local_version`, with both sides' data.
pub proof fn lemma_stale_version_conflicts(
    s: Seq<RecordView>,
    owner: u128,
    kind: EntityType,
    item: ItemView,
    now: i64,
)
    requires
        spec_version_of(s, owner, kind, item.id) is Some,
        spec_version_of(s, owner, kind, item.id).unwrap() > item.version,
        item.deleted || item.data is Some,
    ensures
        spec_sync_item(s, owner, kind, item, now) matches StepOutcome::Conflicted { info }
            && info.server_version == spec_version_of(s, owner, kind, item.id).unwrap()
            && info.local_version == item.version && info.entity_id == item.id && info.local_data
            == item.data,
        ({
            let folded = spec_sync_list(s, owner, kind, seq![item], now);
            &&& folded.entities == s
            &&& folded.results == Seq::<ResultView>::empty()
            &&& folded.error is None
            &&& folded.conflicts == seq![
                spec_sync_item(s, owner, kind, item, now)->Conflicted_info,
            ]
        }),
{
    let folded = spec_sync_list(s, owner, kind, seq![item], now);
    assert(seq![item].drop_first() =~= Seq::<ItemView>::empty());
    let rest = spec_sync_list(s, owner, kind, seq![item].drop_first(), now);
    assert(rest.entities == s);
    let info = spec_sync_item(s, owner, kind, item, now)->Conflicted_info;
    assert(folded.conflicts =~= seq![info]);
}

/// Idempotence: once an item has been applied, submitting the identical item
/// again yields `NoChange` and leaves the table exactly as the first call
/// left it — never a duplicate creation, whatever timestamp the second call
/// runs at.
pub proof fn lemma_sync_idempotent(
    s: Seq<RecordView>,
    owner: u128,
    kind: EntityType,
    item: ItemView,
    now: i64,
    later: i64,
)
    requires
        spec_sync_item(s, owner, kind, item, now) is Applied,
    ensures
        spec_sync_item(s, owner, kind, item, now) matches StepOutcome::Applied {
            entities,
            result,
        } ==> spec_sync_item(entities, owner, kind, item, later) == (StepOutcome::Applied {
            entities: entities,
            result: ResultView {
                id: item.id,
                version: item.version,
                action: SyncAction::NoChange,
                data: None,
            },
        }),
{
    let step = spec_sync_item(s, owner, kind, item, now);
    let entities = step->Applied_entities;
    let key = entity_key(kind, item.id);
    match spec_find(s, kind, item.id) {
        None => {
            let fields = if item.deleted {
                spec_default_fields(kind)
            } else {
                spec_extract(kind, item.data.unwrap()).unwrap()
            };
            let rec = spec_created_record(owner, kind, item, fields, now);
            lemma_first_match_push(s, key, rec);
        },
        Some(i) => {
            lemma_first_match_props(s, key);
            if s[i].version == item.version {
            } else {
                let updated = entities[i];
                lemma_first_match_update(s, key, i, updated);
            }
        },
    }
}

/// The store's version counter never moves backward: an applied item leaves
/// every row's version at least where it was, and every row present stays
/// present.
pub proof fn lemma_version_monotonic(
    s: Seq<RecordView>,
    owner: u128,
    kind: EntityType,
    item: ItemView,
    now: i64,
    kind2: EntityType,
    id2: u128,
)
    requires
        spec_sync_item(s, owner, kind, item, now) is Applied,
        spec_find(s, kind2, id2) is Some,
    ensures
        spec_sync_item(s, owner, kind, item, now) matches StepOutcome::Applied {
            entities,
            ..
        } ==> ({
            let i = spec_find(s, kind2, id2).unwrap();
            &&& spec_find(entities, kind2, id2) == Some(i)
            &&& entities[i].version >= s[i].version
            &&& entities[i].owner == s[i].owner
        }),
{
    let step = spec_sync_item(s, owner, kind, item, now);
    let entities = step->Applied_entities;
    let key2 = entity_key(kind2, id2);
    let i = spec_find(s, kind2, id2).unwrap();
    lemma_first_match_props(s, key2);
    match spec_find(s, kind, item.id) {
        None => {
            let fields = if item.deleted {
                spec_default_fields(kind)
            } else {
                spec_extract(kind, item.data.unwrap()).unwrap()
            };
            let rec = spec_created_record(owner, kind, item, fields, now);
            lemma_first_match_push(s, key2, rec);
        },
        Some(j) => {
            lemma_first_match_props(s, entity_key(kind, item.id));
            if s[j].version == item.version {
            } else {
                assert(entities == s.update(j, entities[j]));
                if (kind2, id2) == (kind, item.id) {
                    assert(i == j);
                    lemma_first_match_update(s, key2, i, entities[i]);
                } else {
                    assert(entities[i] == s[i]);
                    lemma_first_match_is(entities, key2, i);
                }
            }
        },
    }
}


/// The fields a payload projects to carry the kind they were projected for.
pub proof fn lemma_extract_kind(kind: EntityType, d: crate::model::PayloadView)
    ensures
        spec_extract(kind, d) matches Some(f) ==> f.kind() == kind,
        spec_default_fields(kind).kind() == kind,
{
}

/// Reconciling one item keeps the table well formed: every row it appends
/// or rewrites carries fields of its own kind.
pub proof fn lemma_sync_item_preserves_wf(
    s: Seq<RecordView>,
    owner: u128,
    kind: EntityType,
    item: ItemView,
    now: i64,
)
    requires
        table_wf(s),
    ensures
        spec_sync_item(s, owner, kind, item, now) matches StepOutcome::Applied {
            entities,
            ..
        } ==> table_wf(entities),
{
    let step = spec_sync_item(s, owner, kind, item, now);
    if step is Applied {
        let entities = step->Applied_entities;
        lemma_extract_kind(kind, if item.data is Some {
            item.data.unwrap()
        } else {
            crate::model::PayloadView::empty()
        });
        match spec_find(s, kind, item.id) {
            None => {
                assert forall|j: int| 0 <= j < entities.len() implies record_wf(
                    #[trigger] entities[j],
                ) by {
                    if j < s.len() {
                        assert(record_wf(s[j]));
                    }
                }
            },
            Some(i) => {
                lemma_first_match_props(s, entity_key(kind, item.id));
                assert forall|j: int| 0 <= j < entities.len() implies record_wf(
                    #[trigger] entities[j],
                ) by {
                    assert(record_wf(s[j]));
                }
            },
        }
    }
}

/// Reconciling a whole list keeps the table well formed.
pub proof fn lemma_sync_list_preserves_wf(
    s: Seq<RecordView>,
    owner: u128,
    kind: EntityType,
    items: Seq<ItemView>,
    now: i64,
)
    requires
        table_wf(s),
    ensures
        table_wf(spec_sync_list(s, owner, kind, items, now).entities),
    decreases items.len(),
{
    if items.len() != 0 {
        match spec_sync_item(s, owner, kind, items[0], now) {
            StepOutcome::Applied { entities, .. } => {
                lemma_sync_item_preserves_wf(s, owner, kind, items[0], now);
                lemma_sync_list_preserves_wf(entities, owner, kind, items.drop_first(), now);
            },
            StepOutcome::Conflicted { .. } => {
                lemma_sync_list_preserves_wf(s, owner, kind, items.drop_first(), now);
            },
            StepOutcome::Failed { .. } => {},
        }
    }
}

/// Reconciling a whole batch keeps the table well formed.
pub proof fn lemma_sync_batch_preserves_wf(
    sv: crate::store::StoreView,
    owner: u128,
    req: crate::model::RequestView,
    now: i64,
)
    requires
        table_wf(sv.entities),
    ensures
        table_wf(crate::sync::spec_sync_batch(sv, owner, req, now).entities),
{
    let n = spec_sync_list(sv.entities, owner, EntityType::Note, req.notes, now);
    lemma_sync_list_preserves_wf(sv.entities, owner, EntityType::Note, req.notes, now);
    if n.error is None {
        let t = spec_sync_list(n.entities, owner, EntityType::Task, req.tasks, now);
        lemma_sync_list_preserves_wf(n.entities, owner, EntityType::Task, req.tasks, now);
        if t.error is None {
            lemma_sync_list_preserves_wf(t.entities, owner, EntityType::Habit, req.habits, now);
        }
    }
}


/// Round trip: a note created by sync carries exactly the submitted tags, in
/// submitted order, and a subsequent read of that note reports them
/// unchanged (an absent tags field reads back as the empty list).
pub proof fn lemma_note_tags_round_trip(
    s: Seq<RecordView>,
    owner: u128,
    item: ItemView,
    now: i64,
)
    requires
        spec_find(s, EntityType::Note, item.id) is None,
        !item.deleted,
        item.data is Some,
    ensures
        spec_sync_item(s, owner, EntityType::Note, item, now) matches StepOutcome::Applied {
            entities,
            ..
        } && ({
            let vis = spec_visible(entities, owner, EntityType::Note, item.id);
            &&& vis is Some
            &&& spec_note_response(entities[vis.unwrap()]).tags == or_default(
                item.data.unwrap().tags,
                Seq::empty(),
            )
        }),
{
    let f = spec_extract(EntityType::Note, item.data.unwrap()).unwrap();
    let rec = spec_created_record(owner, EntityType::Note, item, f, now);
    lemma_first_match_push(s, entity_key(EntityType::Note, item.id), rec);
}

} // verus!


