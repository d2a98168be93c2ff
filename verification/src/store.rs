//! The in-memory entity store.
//!
//! One table holds every record, keyed by entity kind and id; a second table
//! holds user rows, keyed by user id.  Each write is a single operation, so a
//! failure between two writes leaves the earlier one visible — the same
//! per-item transaction boundary the sync orchestrator assumes.
//!
//! Lookups find the *first* matching row, and the write operations touch only
//! that row; rows are appended in insertion order, so the sequence view of a
//! table fully determines every operation's result.

use vstd::prelude::*;
use vstd::pervasive::VecAdditionalExecFns;

use crate::errors::AppError;
use crate::model::{EntityFields, EntityType, RecordView, StoredEntity};

verus! {

/// The index of the first element of `s` satisfying `pred`, if any.
pub open spec fn first_match<A>(s: Seq<A>, pred: spec_fn(A) -> bool) -> Option<int>
    decreases s.len(),
{
    if s.len() == 0 {
        None
    } else if pred(s[0]) {
        Some(0int)
    } else {
        match first_match(s.drop_first(), pred) {
            Some(i) => Some(i + 1),
            None => None,
        }
    }
}

/// What `first_match` returns: a matching index preceded only by
/// non-matching elements, or nothing when no element matches.
pub proof fn lemma_first_match_props<A>(s: Seq<A>, pred: spec_fn(A) -> bool)
    ensures
        match first_match(s, pred) {
            Some(i) => 0 <= i < s.len() && pred(s[i]) && (forall|j: int|
                0 <= j < i ==> !pred(s[j])),
            None => forall|j: int| 0 <= j < s.len() ==> !pred(s[j]),
        },
    decreases s.len(),
{
    if s.len() != 0 && !pred(s[0]) {
        let rest = s.drop_first();
        lemma_first_match_props(rest, pred);
        match first_match(s, pred) {
            Some(i) => {
                assert(rest[i - 1] == s[i]);
                assert forall|j: int| 0 <= j < i implies !pred(s[j]) by {
                    if j > 0 {
                        assert(rest[j - 1] == s[j]);
                    }
                }
            },
            None => {
                assert forall|j: int| 0 <= j < s.len() implies !pred(s[j]) by {
                    if j > 0 {
                        assert(rest[j - 1] == s[j]);
                    }
                }
            },
        }
    }
}

/// Any index that matches and is preceded only by non-matches is the one
/// `first_match` returns.
pub proof fn lemma_first_match_is<A>(s: Seq<A>, pred: spec_fn(A) -> bool, i: int)
    requires
        0 <= i < s.len(),
        pred(s[i]),
        forall|j: int| 0 <= j < i ==> !pred(s[j]),
    ensures
        first_match(s, pred) == Some(i),
    decreases s.len(),
{
    if i > 0 {
        let rest = s.drop_first();
        assert(rest[i - 1] == s[i]);
        assert forall|j: int| 0 <= j < i - 1 implies !pred(rest[j]) by {
            assert(rest[j] == s[j + 1]);
        }
        lemma_first_match_is(rest, pred, i - 1);
    }
}

/// When no element matches, `first_match` returns nothing.
pub proof fn lemma_first_match_none<A>(s: Seq<A>, pred: spec_fn(A) -> bool)
    requires
        forall|j: int| 0 <= j < s.len() ==> !pred(s[j]),
    ensures
        first_match(s, pred) is None,
    decreases s.len(),
{
    if s.len() != 0 {
        let rest = s.drop_first();
        assert forall|j: int| 0 <= j < rest.len() implies !pred(rest[j]) by {
            assert(rest[j] == s[j + 1]);
        }
        lemma_first_match_none(rest, pred);
    }
}

/// Appending an element leaves an existing first match in place; otherwise
/// the new element is found exactly when it matches.
pub proof fn lemma_first_match_push<A>(s: Seq<A>, pred: spec_fn(A) -> bool, x: A)
    ensures
        first_match(s.push(x), pred) == (match first_match(s, pred) {
            Some(i) => Some(i),
            None => if pred(x) {
                Some(s.len() as int)
            } else {
                None
            },
        }),
{
    lemma_first_match_props(s, pred);
    match first_match(s, pred) {
        Some(i) => {
            lemma_first_match_is(s.push(x), pred, i);
        },
        None => {
            if pred(x) {
                lemma_first_match_is(s.push(x), pred, s.len() as int);
            } else {
                lemma_first_match_none(s.push(x), pred);
            }
        },
    }
}

/// Replacing the found element with another match, or any element past the
/// found one, leaves the first match's index unchanged.
pub proof fn lemma_first_match_update<A>(s: Seq<A>, pred: spec_fn(A) -> bool, i: int, x: A)
    requires
        first_match(s, pred) == Some(i),
        pred(x),
    ensures
        first_match(s.update(i, x), pred) == Some(i),
{
    lemma_first_match_props(s, pred);
    lemma_first_match_is(s.update(i, x), pred, i);
}

/// A row is well formed when its fields are the variant of its kind.
pub open spec fn record_wf(r: RecordView) -> bool {
    r.fields.kind() == r.kind
}

/// A table is well formed when every row is.
pub open spec fn table_wf(s: Seq<RecordView>) -> bool {
    forall|i: int| 0 <= i < s.len() ==> record_wf(#[trigger] s[i])
}

/// The predicate locating an entity row by kind and id.
pub open spec fn entity_key(kind: EntityType, id: u128) -> spec_fn(RecordView) -> bool {
    |r: RecordView| r.kind == kind && r.id == id
}

/// Index of the row for `(kind, id)`, if the table holds one.
pub open spec fn spec_find(s: Seq<RecordView>, kind: EntityType, id: u128) -> Option<int> {
    first_match(s, entity_key(kind, id))
}

/// The predicate locating a user row by id.
pub open spec fn user_key(id: u128) -> spec_fn(UserView) -> bool {
    |u: UserView| u.id == id
}

/// Index of the row for user `id`, if the user table holds one.
pub open spec fn spec_find_user(us: Seq<UserView>, id: u128) -> Option<int> {
    first_match(us, user_key(id))
}

/// An authenticated user's row: identity, OAuth token material, and the
/// timestamp of the last completed sync.
#[derive(Debug)]
pub struct User {
    pub id: u128,
    pub google_id: String,
    pub email: String,
    pub name: String,
    pub profile_picture: Option<String>,
    pub google_access_token: Option<String>,
    pub google_refresh_token: Option<String>,
    pub google_token_expires_at: Option<i64>,
    pub created_at: i64,
    pub updated_at: i64,
    pub last_sync_at: Option<i64>,
}

/// Ghost counterpart of [`User`].
pub ghost struct UserView {
    pub id: u128,
    pub google_id: Seq<char>,
    pub email: Seq<char>,
    pub name: Seq<char>,
    pub profile_picture: Option<Seq<char>>,
    pub google_access_token: Option<Seq<char>>,
    pub google_refresh_token: Option<Seq<char>>,
    pub google_token_expires_at: Option<i64>,
    pub created_at: i64,
    pub updated_at: i64,
    pub last_sync_at: Option<i64>,
}

impl View for User {
    type V = UserView;

    open spec fn view(&self) -> UserView {
        UserView {
            id: self.id,
            google_id: self.google_id.deep_view(),
            email: self.email.deep_view(),
            name: self.name.deep_view(),
            profile_picture: self.profile_picture.deep_view(),
            google_access_token: self.google_access_token.deep_view(),
            google_refresh_token: self.google_refresh_token.deep_view(),
            google_token_expires_at: self.google_token_expires_at,
            created_at: self.created_at,
            updated_at: self.updated_at,
            last_sync_at: self.last_sync_at,
        }
    }
}

impl DeepView for User {
    type V = UserView;

    open spec fn deep_view(&self) -> UserView {
        self.view()
    }
}

impl DeepView for StoredEntity {
    type V = RecordView;

    open spec fn deep_view(&self) -> RecordView {
        self.view()
    }
}

/// The persistent state: one entity table and one user table.
#[derive(Debug)]
pub struct EntityStore {
    pub entities: Vec<StoredEntity>,
    pub users: Vec<User>,
}

/// Ghost counterpart of [`EntityStore`].
pub ghost struct StoreView {
    pub entities: Seq<RecordView>,
    pub users: Seq<UserView>,
}

impl View for EntityStore {
    type V = StoreView;

    open spec fn view(&self) -> StoreView {
        StoreView { entities: self.entities.deep_view(), users: self.users.deep_view() }
    }
}

impl EntityStore {
    /// An empty store.
    pub fn new() -> (s: EntityStore)
        ensures
            s@.entities == Seq::<RecordView>::empty(),
            s@.users == Seq::<UserView>::empty(),
    {
        let s = EntityStore { entities: Vec::new(), users: Vec::new() };
        proof {
            assert(s@.entities =~= Seq::<RecordView>::empty());
            assert(s@.users =~= Seq::<UserView>::empty());
        }
        s
    }

    /// Index of the row for `(kind, id)` in the entity table.
    pub fn find_index(&self, kind: EntityType, id: u128) -> (r: Option<usize>)
        ensures
            match r {
                Some(i) => spec_find(self@.entities, kind, id) == Some(i as int) && i
                    < self.entities.len() && self@.entities[i as int].kind == kind
                    && self@.entities[i as int].id == id,
                None => spec_find(self@.entities, kind, id) is None,
            },
    {
        let n = self.entities.len();
        let mut i: usize = 0;
        while i < n
            invariant
                n == self.entities.len(),
                i <= n,
                forall|j: int| 0 <= j < i ==> !entity_key(kind, id)(self@.entities[j]),
            decreases n - i,
        {
            let e = &self.entities[i];
            if e.kind == kind && e.id == id {
                proof {
                    lemma_first_match_is(self@.entities, entity_key(kind, id), i as int);
                }
                return Some(i);
            }
            i = i + 1;
        }
        proof {
            lemma_first_match_none(self@.entities, entity_key(kind, id));
        }
        None
    }

    /// The version the store currently holds for `(kind, id)`, scoped to
    /// `owner`: a row belonging to someone else is invisible to this call.
    pub fn find_version(&self, owner: u128, kind: EntityType, id: u128) -> (r: Option<u32>)
        ensures
            r == spec_version_of(self@.entities, owner, kind, id),
    {
        match self.find_index(kind, id) {
            Some(i) => {
                let e = &self.entities[i];
                if e.owner == owner {
                    Some(e.version)
                } else {
                    None
                }
            },
            None => None,
        }
    }

    /// Append a fresh row.  Refused when the table already holds a row for
    /// the same kind and id.
    pub fn insert(&mut self, e: StoredEntity) -> (r: Result<(), AppError>)
        ensures
            match r {
                Ok(()) => spec_find(old(self)@.entities, e.kind, e.id) is None
                    && final(self)@.entities == old(self)@.entities.push(e@),
                Err(err) => spec_find(old(self)@.entities, e.kind, e.id) is Some
                    && final(self)@ == old(self)@
                    && err@ is Database,
            },
            final(self)@.users == old(self)@.users,
    {
        match self.find_index(e.kind, e.id) {
            Some(_) => Err(AppError::Database(label_duplicate_row())),
            None => {
                let ghost prior = self@.entities;
                self.entities.push(e);
                proof {
                    assert(self@.entities =~= prior.push(e@));
                }
                Ok(())
            },
        }
    }

    /// Overwrite the kind-specific fields and version of the row for
    /// `(kind, id)` and refresh its modification timestamp, when the row
    /// exists and belongs to `owner`; otherwise change nothing.  Reports
    /// whether a row was written.
    pub fn overwrite(
        &mut self,
        owner: u128,
        kind: EntityType,
        id: u128,
        fields: EntityFields,
        version: u32,
        now: i64,
    ) -> (affected: bool)
        ensures
            final(self)@.users == old(self)@.users,
            (match spec_find(old(self)@.entities, kind, id) {
                Some(i) => {
                    if old(self)@.entities[i].owner == owner {
                        affected && final(self)@.entities == old(self)@.entities.update(
                            i,
                            (RecordView {
                                fields: fields@,
                                version: version,
                                updated_at: now,
                                ..old(self)@.entities[i]
                            }),
                        )
                    } else {
                        !affected && final(self)@ == old(self)@
                    }
                },
                None => !affected && final(self)@ == old(self)@,
            }),
    {
        match self.find_index(kind, id) {
            Some(i) => {
                let e = &self.entities[i];
                if e.owner == owner {
                    let ghost prior = self@.entities;
                    let updated = StoredEntity {
                        kind: e.kind,
                        id: e.id,
                        owner: e.owner,
                        version: version,
                        created_at: e.created_at,
                        updated_at: now,
                        deleted_at: e.deleted_at,
                        fields,
                    };
                    self.entities.set(i, updated);
                    proof {
                        assert(self@.entities =~= prior.update(
                            i as int,
                            (RecordView {
                                fields: updated.fields@,
                                version: version,
                                updated_at: now,
                                ..prior[i as int]
                            }),
                        ));
                    }
                    true
                } else {
                    false
                }
            },
            None => false,
        }
    }

    /// Set the soft-delete marker and version of the row for `(kind, id)`,
    /// when it exists and belongs to `owner`; otherwise change nothing.  The
    /// modification timestamp is left as it was.  Reports whether a row was
    /// written.
    pub fn soft_delete(
        &mut self,
        owner: u128,
        kind: EntityType,
        id: u128,
        version: u32,
        now: i64,
    ) -> (affected: bool)
        ensures
            final(self)@.users == old(self)@.users,
            (match spec_find(old(self)@.entities, kind, id) {
                Some(i) => {
                    if old(self)@.entities[i].owner == owner {
                        affected && final(self)@.entities == old(self)@.entities.update(
                            i,
                            (RecordView {
                                version: version,
                                deleted_at: Some(now),
                                ..old(self)@.entities[i]
                            }),
                        )
                    } else {
                        !affected && final(self)@ == old(self)@
                    }
                },
                None => !affected && final(self)@ == old(self)@,
            }),
    {
        match self.find_index(kind, id) {
            Some(i) => {
                let e = &self.entities[i];
                if e.owner == owner {
                    let ghost prior = self@.entities;
                    let updated = StoredEntity {
                        kind: e.kind,
                        id: e.id,
                        owner: e.owner,
                        version: version,
                        created_at: e.created_at,
                        updated_at: e.updated_at,
                        deleted_at: Some(now),
                        fields: e.fields.clone(),
                    };
                    self.entities.set(i, updated);
                    proof {
                        assert(self@.entities =~= prior.update(
                            i as int,
                            (RecordView {
                                version: version,
                                deleted_at: Some(now),
                                ..prior[i as int]
                            }),
                        ));
                    }
                    true
                } else {
                    false
                }
            },
            None => false,
        }
    }

    /// Stamp the user's last-successful-sync timestamp, when the user table
    /// holds a row for `owner`; otherwise change nothing.
    pub fn touch_last_sync(&mut self, owner: u128, now: i64)
        ensures
            final(self)@.entities == old(self)@.entities,
            final(self)@.users == spec_touch_last_sync(old(self)@.users, owner, now),
    {
        let n = self.users.len();
        let mut i: usize = 0;
        while i < n
            invariant
                n == self.users.len(),
                self@ == old(self)@,
                i <= n,
                forall|j: int| 0 <= j < i ==> !user_key(owner)(self@.users[j]),
            decreases n - i,
        {
            if self.users[i].id == owner {
                proof {
                    lemma_first_match_is(self@.users, user_key(owner), i as int);
                }
                let ghost prior = self@.users;
                let u = &self.users[i];
                let updated = User {
                    id: u.id,
                    google_id: u.google_id.clone(),
                    email: u.email.clone(),
                    name: u.name.clone(),
                    profile_picture: u.profile_picture.clone(),
                    google_access_token: u.google_access_token.clone(),
                    google_refresh_token: u.google_refresh_token.clone(),
                    google_token_expires_at: u.google_token_expires_at,
                    created_at: u.created_at,
                    updated_at: u.updated_at,
                    last_sync_at: Some(now),
                };
                self.users.set(i, updated);
                proof {
                    assert(self@.users =~= prior.update(
                        i as int,
                        (UserView { last_sync_at: Some(now), ..prior[i as int] }),
                    ));
                }
                return ;
            }
            i = i + 1;
        }
        proof {
            lemma_first_match_none(self@.users, user_key(owner));
        }
    }
}

/// The version the store holds for `(kind, id)` as seen by `owner`.
pub open spec fn spec_version_of(
    s: Seq<RecordView>,
    owner: u128,
    kind: EntityType,
    id: u128,
) -> Option<u32> {
    match spec_find(s, kind, id) {
        Some(i) => if s[i].owner == owner {
            Some(s[i].version)
        } else {
            None
        },
        None => None,
    }
}

/// The user table after stamping `owner`'s last-sync timestamp.
pub open spec fn spec_touch_last_sync(us: Seq<UserView>, owner: u128, now: i64) -> Seq<UserView> {
    match spec_find_user(us, owner) {
        Some(i) => us.update(i, (UserView { last_sync_at: Some(now), ..us[i] })),
        None => us,
    }
}

/// Message for an insert that collides with an existing row.
fn label_duplicate_row() -> (r: String)
    ensures
        r@ == "duplicate row for entity id"@,
{
    String::from_str("duplicate row for entity id")
}


/// A user row as the profile endpoints report it: identity and profile
/// only, never token material.
#[derive(Debug)]
pub struct UserResponse {
    pub id: u128,
    pub email: String,
    pub name: String,
    pub profile_picture: Option<String>,
    pub created_at: i64,
    pub last_sync_at: Option<i64>,
}

/// Ghost counterpart of [`UserResponse`].
pub ghost struct UserResponseView {
    pub id: u128,
    pub email: Seq<char>,
    pub name: Seq<char>,
    pub profile_picture: Option<Seq<char>>,
    pub created_at: i64,
    pub last_sync_at: Option<i64>,
}

impl View for UserResponse {
    type V = UserResponseView;

    open spec fn view(&self) -> UserResponseView {
        UserResponseView {
            id: self.id,
            email: self.email.deep_view(),
            name: self.name.deep_view(),
            profile_picture: self.profile_picture.deep_view(),
            created_at: self.created_at,
            last_sync_at: self.last_sync_at,
        }
    }
}

impl UserResponse {
    /// Report a user row, projecting away the token columns.
    pub fn from_user(u: &User) -> (r: UserResponse)
        ensures
            r@ == (UserResponseView {
                id: u@.id,
                email: u@.email,
                name: u@.name,
                profile_picture: u@.profile_picture,
                created_at: u@.created_at,
                last_sync_at: u@.last_sync_at,
            }),
    {
        UserResponse {
            id: u.id,
            email: u.email.clone(),
            name: u.name.clone(),
            profile_picture: (match &u.profile_picture {
                Some(p) => Some(p.clone()),
                None => None,
            }),
            created_at: u.created_at,
            last_sync_at: u.last_sync_at,
        }
    }
}

} // verus!

