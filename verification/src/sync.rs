//! The sync orchestrator and status reporter.
//!
//! One submitted item is reconciled by [`sync_item`]: validation first, then
//! the version-conflict decision, then the matching executor operation.  A
//! batch is reconciled list by list, in submission order; a conflict never
//! fails the batch — it is collected into the response's conflict list and
//! the item is skipped — while a validation or authorization failure aborts
//! the batch, leaving the items already applied visible (each item's write is
//! its own transaction).  After a batch completes without hard failure the
//! owner's last-sync timestamp is stamped exactly once.
//!
//! The meaning of every operation is pinned by the spec functions here:
//! [`spec_sync_item`] gives the step relation, [`spec_sync_list`] folds it
//! over one list, and [`spec_sync_batch`] chains the three lists and the
//! final timestamp stamp.

use vstd::prelude::*;

use crate::errors::{AppError, ErrorView};
use crate::executor::{
    execute_create, execute_delete, execute_update, no_change_result, spec_created_record,
    spec_data_required_msg, spec_default_fields, spec_extract, spec_status_required_msg,
};
use crate::model::{
    ConflictInfo, ConflictView, EntityType, ItemView, RecordView, RequestView, ResultView,
    StoredEntity, SyncAction, SyncItem, SyncRequest, SyncResponse, SyncResult, SyncStatus,
};
use crate::resolver::{Decision, resolve};
use crate::store::{EntityStore, StoreView, UserView, spec_find, spec_touch_last_sync};

verus! {

/// Message used when an item addresses a row owned by someone else.
pub open spec fn spec_unauthorized_msg() -> Seq<char> {
    "entity belongs to another user"@
}

/// The conflict report synthesized when an item's version is stale: both the
/// submitted payload and the store's current fields, so the client can offer
/// a merge.
pub open spec fn spec_conflict_info(
    kind: EntityType,
    item: ItemView,
    server: RecordView,
) -> ConflictView {
    ConflictView {
        entity_type: kind,
        entity_id: item.id,
        local_version: item.version,
        server_version: server.version,
        local_data: item.data,
        server_data: server.fields,
    }
}

/// What reconciling one item does: a new entity table and a result, a
/// conflict report, or a batch-aborting failure.
pub ghost enum StepOutcome {
    Applied { entities: Seq<RecordView>, result: ResultView },
    Conflicted { info: ConflictView },
    Failed { error: ErrorView },
}

/// The step relation of the protocol: how one submitted item transforms the
/// entity table, and what is reported for it.
///
/// A non-delete submission without a payload fails validation outright.  An
/// id unknown to the store is created at the submitted version (a deletion
/// creates the row already tombstoned).  A row owned by someone else is
/// refused.  Equal versions report `NoChange` and write nothing, whatever
/// the payload holds.  A newer submitted version overwrites (or tombstones)
/// the row and moves its version to exactly the submitted one.  An older
/// submitted version is a conflict: the store is left untouched and both
/// sides' data are reported.
pub open spec fn spec_sync_item(
    s: Seq<RecordView>,
    owner: u128,
    kind: EntityType,
    item: ItemView,
    now: i64,
) -> StepOutcome {
    if !item.deleted && item.data is None {
        StepOutcome::Failed { error: ErrorView::Validation(spec_data_required_msg(kind)) }
    } else {
        match spec_find(s, kind, item.id) {
            None => if item.deleted {
                StepOutcome::Applied {
                    entities: s.push(
                        spec_created_record(owner, kind, item, spec_default_fields(kind), now),
                    ),
                    result: ResultView {
                        id: item.id,
                        version: item.version,
                        action: SyncAction::Deleted,
                        data: None,
                    },
                }
            } else {
                match spec_extract(kind, item.data.unwrap()) {
                    Some(f) => StepOutcome::Applied {
                        entities: s.push(spec_created_record(owner, kind, item, f, now)),
                        result: ResultView {
                            id: item.id,
                            version: item.version,
                            action: SyncAction::Created,
                            data: item.data,
                        },
                    },
                    None => StepOutcome::Failed {
                        error: ErrorView::Validation(spec_status_required_msg()),
                    },
                }
            },
            Some(i) => if s[i].owner != owner {
                StepOutcome::Failed { error: ErrorView::Unauthorized(spec_unauthorized_msg()) }
            } else if s[i].version == item.version {
                StepOutcome::Applied {
                    entities: s,
                    result: ResultView {
                        id: item.id,
                        version: item.version,
                        action: SyncAction::NoChange,
                        data: None,
                    },
                }
            } else if s[i].version < item.version {
                if item.deleted {
                    StepOutcome::Applied {
                        entities: s.update(
                            i,
                            (RecordView {
                                version: item.version,
                                deleted_at: Some(now),
                                ..s[i]
                            }),
                        ),
                        result: ResultView {
                            id: item.id,
                            version: item.version,
                            action: SyncAction::Deleted,
                            data: None,
                        },
                    }
                } else {
                    match spec_extract(kind, item.data.unwrap()) {
                        Some(f) => StepOutcome::Applied {
                            entities: s.update(
                                i,
                                (RecordView {
                                    fields: f,
                                    version: item.version,
                                    updated_at: now,
                                    ..s[i]
                                }),
                            ),
                            result: ResultView {
                                id: item.id,
                                version: item.version,
                                action: SyncAction::Updated,
                                data: item.data,
                            },
                        },
                        None => StepOutcome::Failed {
                            error: ErrorView::Validation(spec_status_required_msg()),
                        },
                    }
                }
            } else {
                StepOutcome::Conflicted { info: spec_conflict_info(kind, item, s[i]) }
            },
        }
    }
}

/// The per-item verdict handed back to the orchestrator: an applied result,
/// or a conflict report to collect.
#[derive(Debug)]
pub enum ItemOutcome {
    Applied(SyncResult),
    Conflicted(ConflictInfo),
}

/// Synthesize the conflict report for a stale submission.
fn make_conflict(kind: EntityType, item: &SyncItem, server: &StoredEntity) -> (c: ConflictInfo)
    ensures
        c@ == spec_conflict_info(kind, item@, server@),
{
    ConflictInfo {
        entity_type: kind,
        entity_id: item.id,
        local_version: item.version,
        server_version: server.version,
        local_data: match &item.data {
            Some(p) => Some(p.clone()),
            None => None,
        },
        server_data: server.fields.clone(),
    }
}

/// Message used when a non-delete submission carries no payload.
fn data_required_label(kind: EntityType) -> (r: String)
    ensures
        r@ == spec_data_required_msg(kind),
{
    match kind {
        EntityType::Note => String::from_str("Note data is required for non-delete operations"),
        EntityType::Task => String::from_str("Task data is required for non-delete operations"),
        EntityType::Habit => String::from_str("Habit data is required for non-delete operations"),
    }
}

/// Reconcile one submitted item against the store, as
/// [`spec_sync_item`] prescribes.
pub fn sync_item(
    store: &mut EntityStore,
    owner: u128,
    kind: EntityType,
    item: &SyncItem,
    now: i64,
) -> (r: Result<ItemOutcome, AppError>)
    ensures
        final(store)@.users == old(store)@.users,
        (match r {
            Ok(ItemOutcome::Applied(res)) => spec_sync_item(
                old(store)@.entities,
                owner,
                kind,
                item@,
                now,
            ) matches StepOutcome::Applied { entities, result } && final(store)@.entities
                == entities && res@ == result,
            Ok(ItemOutcome::Conflicted(c)) => spec_sync_item(
                old(store)@.entities,
                owner,
                kind,
                item@,
                now,
            ) matches StepOutcome::Conflicted { info } && c@ == info && final(store)@ == old(
                store,
            )@,
            Err(e) => spec_sync_item(old(store)@.entities, owner, kind, item@, now)
                matches StepOutcome::Failed { error } && e@ == error && final(store)@ == old(
                store,
            )@,
        }),
{
    if !item.deleted && item.data.is_none() {
        return Err(AppError::Validation(data_required_label(kind)));
    }
    match store.find_index(kind, item.id) {
        None => {
            match resolve(None, item.version) {
                Decision::Create => match execute_create(store, owner, kind, item, now) {
                    Ok(res) => Ok(ItemOutcome::Applied(res)),
                    Err(e) => Err(e),
                },
                _ => vstd::pervasive::unreached(),
            }
        },
        Some(i) => {
            let server = &store.entities[i];
            if server.owner != owner {
                return Err(
                    AppError::Unauthorized(String::from_str("entity belongs to another user")),
                );
            }
            match resolve(Some(server.version), item.version) {
                Decision::NoChange => Ok(ItemOutcome::Applied(no_change_result(item))),
                Decision::Update => {
                    if item.deleted {
                        let res = execute_delete(store, owner, kind, item, now);
                        Ok(ItemOutcome::Applied(res))
                    } else {
                        match execute_update(store, owner, kind, item, now) {
                            Ok(res) => Ok(ItemOutcome::Applied(res)),
                            Err(e) => Err(e),
                        }
                    }
                },
                Decision::Conflict => {
                    let c = make_conflict(kind, item, &store.entities[i]);
                    Ok(ItemOutcome::Conflicted(c))
                },
                Decision::Create => vstd::pervasive::unreached(),
            }
        },
    }
}

/// The fold of [`spec_sync_item`] over one submitted list: the entity table
/// after processing, the results and conflict reports collected, and the
/// first aborting failure, if any.  Processing stops at the failure, so
/// `entities` reflects exactly the items applied before it.
pub ghost struct ListOutcome {
    pub entities: Seq<RecordView>,
    pub results: Seq<ResultView>,
    pub conflicts: Seq<ConflictView>,
    pub error: Option<ErrorView>,
}

/// Fold the step relation over a list of items, in submission order.
pub open spec fn spec_sync_list(
    s: Seq<RecordView>,
    owner: u128,
    kind: EntityType,
    items: Seq<ItemView>,
    now: i64,
) -> ListOutcome
    decreases items.len(),
{
    if items.len() == 0 {
        ListOutcome { entities: s, results: Seq::empty(), conflicts: Seq::empty(), error: None }
    } else {
        match spec_sync_item(s, owner, kind, items[0], now) {
            StepOutcome::Applied { entities, result } => {
                let rest = spec_sync_list(entities, owner, kind, items.drop_first(), now);
                ListOutcome {
                    entities: rest.entities,
                    results: seq![result] + rest.results,
                    conflicts: rest.conflicts,
                    error: rest.error,
                }
            },
            StepOutcome::Conflicted { info } => {
                let rest = spec_sync_list(s, owner, kind, items.drop_first(), now);
                ListOutcome {
                    entities: rest.entities,
                    results: rest.results,
                    conflicts: seq![info] + rest.conflicts,
                    error: rest.error,
                }
            },
            StepOutcome::Failed { error } => ListOutcome {
                entities: s,
                results: Seq::empty(),
                conflicts: Seq::empty(),
                error: Some(error),
            },
        }
    }
}

/// Reconcile one submitted list in order, collecting results and conflicts,
/// as [`spec_sync_list`] prescribes.  A failure aborts the list, leaving the
/// items already applied visible.
pub fn sync_list(
    store: &mut EntityStore,
    owner: u128,
    kind: EntityType,
    items: &Vec<SyncItem>,
    now: i64,
) -> (r: Result<(Vec<SyncResult>, Vec<ConflictInfo>), AppError>)
    ensures
        final(store)@.users == old(store)@.users,
        ({
            let total = spec_sync_list(old(store)@.entities, owner, kind, items.deep_view(), now);
            match r {
                Ok((results, conflicts)) => total.error is None && final(store)@.entities
                    == total.entities && results.deep_view() == total.results
                    && conflicts.deep_view() == total.conflicts,
                Err(e) => total.error == Some(e@) && final(store)@.entities == total.entities,
            }
        }),
{
    let ghost s0 = store@.entities;
    let ghost u0 = store@.users;
    let ghost all = items.deep_view();
    let ghost total = spec_sync_list(s0, owner, kind, all, now);
    let mut results: Vec<SyncResult> = Vec::new();
    let mut conflicts: Vec<ConflictInfo> = Vec::new();
    let n = items.len();
    let mut idx: usize = 0;
    proof {
        assert(all.skip(0) =~= all);
        assert(results.deep_view() =~= Seq::<ResultView>::empty());
        assert(conflicts.deep_view() =~= Seq::<ConflictView>::empty());
    }
    while idx < n
        invariant
            n == items.len(),
            idx <= n,
            all == items.deep_view(),
            s0 == old(store)@.entities,
            u0 == old(store)@.users,
            total == spec_sync_list(s0, owner, kind, all, now),
            store@.users == u0,
            ({
                let rest = spec_sync_list(store@.entities, owner, kind, all.skip(idx as int), now);
                &&& total.entities == rest.entities
                &&& total.error == rest.error
                &&& total.results == results.deep_view() + rest.results
                &&& total.conflicts == conflicts.deep_view() + rest.conflicts
            }),
        decreases n - idx,
    {
        let ghost pre = store@.entities;
        let ghost remaining = all.skip(idx as int);
        proof {
            assert(remaining.len() == n - idx);
            assert(remaining[0] == all[idx as int]);
            assert(remaining.drop_first() =~= all.skip(idx as int + 1));
        }
        let item = &items[idx];
        match sync_item(store, owner, kind, item, now) {
            Ok(ItemOutcome::Applied(res)) => {
                let ghost prev_results = results.deep_view();
                results.push(res);
                proof {
                    assert(results.deep_view() =~= prev_results.push(res@));
                    let rest = spec_sync_list(pre, owner, kind, remaining, now);
                    let rest2 = spec_sync_list(
                        store@.entities,
                        owner,
                        kind,
                        all.skip(idx as int + 1),
                        now,
                    );
                    assert(rest.results =~= seq![res@] + rest2.results);
                    assert(prev_results + rest.results =~= prev_results.push(res@)
                        + rest2.results);
                }
            },
            Ok(ItemOutcome::Conflicted(c)) => {
                let ghost prev_conflicts = conflicts.deep_view();
                conflicts.push(c);
                proof {
                    assert(conflicts.deep_view() =~= prev_conflicts.push(c@));
                    let rest = spec_sync_list(pre, owner, kind, remaining, now);
                    let rest2 = spec_sync_list(
                        store@.entities,
                        owner,
                        kind,
                        all.skip(idx as int + 1),
                        now,
                    );
                    assert(rest.conflicts =~= seq![c@] + rest2.conflicts);
                    assert(prev_conflicts + rest.conflicts =~= prev_conflicts.push(c@)
                        + rest2.conflicts);
                }
            },
            Err(e) => {
                proof {
                    let rest = spec_sync_list(pre, owner, kind, remaining, now);
                    assert(rest.error == Some(e@));
                    assert(rest.entities == pre);
                }
                return Err(e);
            },
        }
        idx = idx + 1;
    }
    proof {
        assert(all.skip(n as int) =~= Seq::<ItemView>::empty());
        let rest = spec_sync_list(store@.entities, owner, kind, all.skip(n as int), now);
        assert(rest.entities == store@.entities);
        assert(total.results =~= results.deep_view());
        assert(total.conflicts =~= conflicts.deep_view());
    }
    Ok((results, conflicts))
}

/// The outcome of a whole batch: the store afterwards, the three result
/// lists, the aggregated conflicts, and the first aborting failure, if any.
pub ghost struct BatchOutcome {
    pub entities: Seq<RecordView>,
    pub users: Seq<UserView>,
    pub notes: Seq<ResultView>,
    pub tasks: Seq<ResultView>,
    pub habits: Seq<ResultView>,
    pub conflicts: Seq<ConflictView>,
    pub error: Option<ErrorView>,
}

/// What a whole batch does: the three lists folded in order — notes, then
/// tasks, then habits — and, when none aborted, the owner's last-sync
/// timestamp stamped exactly once.
pub open spec fn spec_sync_batch(
    sv: StoreView,
    owner: u128,
    req: RequestView,
    now: i64,
) -> BatchOutcome {
    let n = spec_sync_list(sv.entities, owner, EntityType::Note, req.notes, now);
    if n.error is Some {
        BatchOutcome {
            entities: n.entities,
            users: sv.users,
            notes: Seq::empty(),
            tasks: Seq::empty(),
            habits: Seq::empty(),
            conflicts: Seq::empty(),
            error: n.error,
        }
    } else {
        let t = spec_sync_list(n.entities, owner, EntityType::Task, req.tasks, now);
        if t.error is Some {
            BatchOutcome {
                entities: t.entities,
                users: sv.users,
                notes: Seq::empty(),
                tasks: Seq::empty(),
                habits: Seq::empty(),
                conflicts: Seq::empty(),
                error: t.error,
            }
        } else {
            let h = spec_sync_list(t.entities, owner, EntityType::Habit, req.habits, now);
            if h.error is Some {
                BatchOutcome {
                    entities: h.entities,
                    users: sv.users,
                    notes: Seq::empty(),
                    tasks: Seq::empty(),
                    habits: Seq::empty(),
                    conflicts: Seq::empty(),
                    error: h.error,
                }
            } else {
                BatchOutcome {
                    entities: h.entities,
                    users: spec_touch_last_sync(sv.users, owner, now),
                    notes: n.results,
                    tasks: t.results,
                    habits: h.results,
                    conflicts: n.conflicts + t.conflicts + h.conflicts,
                    error: None,
                }
            }
        }
    }
}

/// The per-owner version table reported by the status endpoint: one entry
/// for every live record the owner holds, in table order, with the store's
/// version on both sides and the flags cleared (the server has no notion of
/// the client's local state; the client diffs locally).
pub open spec fn spec_statuses(s: Seq<RecordView>, owner: u128) -> Seq<SyncStatus>
    decreases s.len(),
{
    if s.len() == 0 {
        Seq::empty()
    } else {
        let rest = spec_statuses(s.drop_last(), owner);
        let r = s.last();
        if r.owner == owner && r.deleted_at is None {
            rest.push(
                SyncStatus {
                    entity_type: r.kind,
                    entity_id: r.id,
                    local_version: r.version,
                    server_version: r.version,
                    needs_sync: false,
                    conflict: false,
                },
            )
        } else {
            rest
        }
    }
}

/// The synchronization service: the store and the operations the sync
/// endpoint exposes over it.
pub struct SyncService {
    pub store: EntityStore,
}

impl SyncService {
    /// A service over the given store.
    pub fn new(store: EntityStore) -> (s: SyncService)
        ensures
            s.store@ == store@,
    {
        SyncService { store }
    }

    /// Reconcile one submitted note item.
    pub fn sync_note(&mut self, owner: u128, item: &SyncItem, now: i64) -> (r: Result<
        ItemOutcome,
        AppError,
    >)
        ensures
            final(self).store@.users == old(self).store@.users,
            (match r {
                Ok(ItemOutcome::Applied(res)) => spec_sync_item(
                    old(self).store@.entities,
                    owner,
                    EntityType::Note,
                    item@,
                    now,
                ) matches StepOutcome::Applied { entities, result } && final(self).store@.entities
                    == entities && res@ == result,
                Ok(ItemOutcome::Conflicted(c)) => spec_sync_item(
                    old(self).store@.entities,
                    owner,
                    EntityType::Note,
                    item@,
                    now,
                ) matches StepOutcome::Conflicted { info } && c@ == info && final(self).store@
                    == old(self).store@,
                Err(e) => spec_sync_item(
                    old(self).store@.entities,
                    owner,
                    EntityType::Note,
                    item@,
                    now,
                ) matches StepOutcome::Failed { error } && e@ == error && final(self).store@ == old(
                    self,
                ).store@,
            }),
    {
        sync_item(&mut self.store, owner, EntityType::Note, item, now)
    }

    /// Reconcile one submitted task item.
    pub fn sync_task(&mut self, owner: u128, item: &SyncItem, now: i64) -> (r: Result<
        ItemOutcome,
        AppError,
    >)
        ensures
            final(self).store@.users == old(self).store@.users,
            (match r {
                Ok(ItemOutcome::Applied(res)) => spec_sync_item(
                    old(self).store@.entities,
                    owner,
                    EntityType::Task,
                    item@,
                    now,
                ) matches StepOutcome::Applied { entities, result } && final(self).store@.entities
                    == entities && res@ == result,
                Ok(ItemOutcome::Conflicted(c)) => spec_sync_item(
                    old(self).store@.entities,
                    owner,
                    EntityType::Task,
                    item@,
                    now,
                ) matches StepOutcome::Conflicted { info } && c@ == info && final(self).store@
                    == old(self).store@,
                Err(e) => spec_sync_item(
                    old(self).store@.entities,
                    owner,
                    EntityType::Task,
                    item@,
                    now,
                ) matches StepOutcome::Failed { error } && e@ == error && final(self).store@ == old(
                    self,
                ).store@,
            }),
    {
        sync_item(&mut self.store, owner, EntityType::Task, item, now)
    }

    /// Reconcile one submitted habit item.
    pub fn sync_habit(&mut self, owner: u128, item: &SyncItem, now: i64) -> (r: Result<
        ItemOutcome,
        AppError,
    >)
        ensures
            final(self).store@.users == old(self).store@.users,
            (match r {
                Ok(ItemOutcome::Applied(res)) => spec_sync_item(
                    old(self).store@.entities,
                    owner,
                    EntityType::Habit,
                    item@,
                    now,
                ) matches StepOutcome::Applied { entities, result } && final(self).store@.entities
                    == entities && res@ == result,
                Ok(ItemOutcome::Conflicted(c)) => spec_sync_item(
                    old(self).store@.entities,
                    owner,
                    EntityType::Habit,
                    item@,
                    now,
                ) matches StepOutcome::Conflicted { info } && c@ == info && final(self).store@
                    == old(self).store@,
                Err(e) => spec_sync_item(
                    old(self).store@.entities,
                    owner,
                    EntityType::Habit,
                    item@,
                    now,
                ) matches StepOutcome::Failed { error } && e@ == error && final(self).store@ == old(
                    self,
                ).store@,
            }),
    {
        sync_item(&mut self.store, owner, EntityType::Habit, item, now)
    }

    /// Reconcile a whole batch, as [`spec_sync_batch`] prescribes: notes,
    /// then tasks, then habits, then — when nothing aborted — the owner's
    /// last-sync stamp.
    pub fn sync_user_data(&mut self, owner: u128, request: SyncRequest, now: i64) -> (r: Result<
        SyncResponse,
        AppError,
    >)
        ensures
            ({
                let b = spec_sync_batch(old(self).store@, owner, request@, now);
                &&& final(self).store@.entities == b.entities
                &&& final(self).store@.users == b.users
                &&& match r {
                    Ok(resp) => b.error is None && resp@.notes == b.notes && resp@.tasks == b.tasks
                        && resp@.habits == b.habits && resp@.conflicts == b.conflicts,
                    Err(e) => b.error == Some(e@),
                }
            }),
            crate::store::table_wf(old(self).store@.entities) ==> crate::store::table_wf(
                final(self).store@.entities,
            ),
    {
        proof {
            if crate::store::table_wf(self.store@.entities) {
                crate::laws::lemma_sync_batch_preserves_wf(self.store@, owner, request@, now);
            }
        }
        let (notes, mut conflicts) = match sync_list(
            &mut self.store,
            owner,
            EntityType::Note,
            &request.notes,
            now,
        ) {
            Ok(pair) => pair,
            Err(e) => {
                return Err(e);
            },
        };
        let (tasks, mut task_conflicts) = match sync_list(
            &mut self.store,
            owner,
            EntityType::Task,
            &request.tasks,
            now,
        ) {
            Ok(pair) => pair,
            Err(e) => {
                return Err(e);
            },
        };
        let (habits, mut habit_conflicts) = match sync_list(
            &mut self.store,
            owner,
            EntityType::Habit,
            &request.habits,
            now,
        ) {
            Ok(pair) => pair,
            Err(e) => {
                return Err(e);
            },
        };
        let ghost nc = conflicts.deep_view();
        let ghost tc = task_conflicts.deep_view();
        let ghost hc = habit_conflicts.deep_view();
        conflicts.append(&mut task_conflicts);
        conflicts.append(&mut habit_conflicts);
        proof {
            assert(conflicts.deep_view() =~= nc + tc + hc);
        }
        self.store.touch_last_sync(owner, now);
        Ok(SyncResponse { notes, tasks, habits, conflicts })
    }

    /// Report the per-entity version table for every live record the owner
    /// holds, across all three kinds, as [`spec_statuses`] prescribes.
    pub fn get_sync_status(&self, owner: u128) -> (r: Vec<SyncStatus>)
        ensures
            r@ == spec_statuses(self.store@.entities, owner),
    {
        let mut out: Vec<SyncStatus> = Vec::new();
        let n = self.store.entities.len();
        let mut i: usize = 0;
        proof {
            assert(self.store@.entities.take(0) =~= Seq::<RecordView>::empty());
        }
        while i < n
            invariant
                n == self.store.entities.len(),
                i <= n,
                out@ == spec_statuses(self.store@.entities.take(i as int), owner),
            decreases n - i,
        {
            let ghost taken = self.store@.entities.take(i as int + 1);
            proof {
                assert(taken.drop_last() =~= self.store@.entities.take(i as int));
                assert(taken.last() == self.store@.entities[i as int]);
            }
            let e = &self.store.entities[i];
            if e.owner == owner && e.deleted_at.is_none() {
                out.push(
                    SyncStatus {
                        entity_type: e.kind,
                        entity_id: e.id,
                        local_version: e.version,
                        server_version: e.version,
                        needs_sync: false,
                        conflict: false,
                    },
                );
            }
            i = i + 1;
        }
        proof {
            assert(self.store@.entities.take(n as int) =~= self.store@.entities);
        }
        out
    }
}

} // verus!
