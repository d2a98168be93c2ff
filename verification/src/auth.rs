//! Authentication-adjacent decisions: what to do with a stored OAuth token,
//! and how a sign-in upserts the user row.
//!
//! The token exchange itself and every HTTP call stay outside the library;
//! here live only the pure decisions the sign-in and refresh flows make
//! between those calls, and the user-table writes.

use vstd::prelude::*;

use crate::store::{
    EntityStore, User, UserView, first_match, lemma_first_match_is, lemma_first_match_none,
    spec_find_user, user_key,
};

verus! {

/// How long before expiry a token is already treated as expired: five
/// minutes, in milliseconds.
pub const TOKEN_REFRESH_BUFFER_MILLIS: i64 = 300000;

/// What to do with the Google token a user row holds.
#[derive(Clone, Copy, Debug, PartialEq, Eq, Structural)]
pub enum TokenAction {
    /// The stored access token is present and not near expiry: use it.
    UseExisting,
    /// The token is expired, near expiry, or of unknown age with a refresh
    /// token at hand: attempt a refresh.
    Refresh,
    /// Nothing usable is stored: clear the token columns and force a fresh
    /// sign-in.
    Reauth,
    /// No access token is stored at all.
    Missing,
}

/// The token decision as a pure function of what the user row holds.
pub open spec fn spec_token_action(
    has_access_token: bool,
    expires_at: Option<i64>,
    has_refresh_token: bool,
    now: i64,
) -> TokenAction {
    if !has_access_token {
        TokenAction::Missing
    } else {
        match expires_at {
            Some(t) => if t <= now + TOKEN_REFRESH_BUFFER_MILLIS {
                TokenAction::Refresh
            } else {
                TokenAction::UseExisting
            },
            None => if has_refresh_token {
                TokenAction::Refresh
            } else {
                TokenAction::Reauth
            },
        }
    }
}

/// Decide what to do with a stored Google token: use it while it is fresh,
/// refresh it when it is expired, near expiry, or of unknown age with a
/// refresh token available, and force a new sign-in otherwise.
pub fn token_action(
    has_access_token: bool,
    expires_at: Option<i64>,
    has_refresh_token: bool,
    now: i64,
) -> (a: TokenAction)
    ensures
        a == spec_token_action(has_access_token, expires_at, has_refresh_token, now),
{
    if !has_access_token {
        TokenAction::Missing
    } else {
        match expires_at {
            Some(t) => {
                if (t as i128) <= (now as i128) + (TOKEN_REFRESH_BUFFER_MILLIS as i128) {
                    TokenAction::Refresh
                } else {
                    TokenAction::UseExisting
                }
            },
            None => {
                if has_refresh_token {
                    TokenAction::Refresh
                } else {
                    TokenAction::Reauth
                }
            },
        }
    }
}

/// The profile an identity provider reports for a signed-in user.
#[derive(Debug)]
pub struct GoogleUserInfo {
    pub id: String,
    pub email: String,
    pub name: String,
    pub picture: Option<String>,
    pub verified_email: bool,
}

/// Ghost counterpart of [`GoogleUserInfo`].
pub ghost struct GoogleUserInfoView {
    pub id: Seq<char>,
    pub email: Seq<char>,
    pub name: Seq<char>,
    pub picture: Option<Seq<char>>,
    pub verified_email: bool,
}

impl View for GoogleUserInfo {
    type V = GoogleUserInfoView;

    open spec fn view(&self) -> GoogleUserInfoView {
        GoogleUserInfoView {
            id: self.id.deep_view(),
            email: self.email.deep_view(),
            name: self.name.deep_view(),
            picture: self.picture.deep_view(),
            verified_email: self.verified_email,
        }
    }
}

/// The predicate locating the user row a sign-in refers to: matching
/// provider id or matching email.
pub open spec fn identity_key(gid: Seq<char>, email: Seq<char>) -> spec_fn(UserView) -> bool {
    |u: UserView| u.google_id == gid || u.email == email
}

/// Index of the user row a sign-in refers to, if one exists.
pub open spec fn spec_find_user_by_identity(
    us: Seq<UserView>,
    gid: Seq<char>,
    email: Seq<char>,
) -> Option<int> {
    first_match(us, identity_key(gid, email))
}

/// The user row after a sign-in touched it: fresh profile and token
/// material; the refresh token is replaced only when the provider handed a
/// new one, and kept otherwise.
pub open spec fn spec_signed_in_user(
    prior: UserView,
    info: GoogleUserInfoView,
    access_token: Seq<char>,
    refresh_token: Option<Seq<char>>,
    expires_at: Option<i64>,
    now: i64,
) -> UserView {
    UserView {
        name: info.name,
        profile_picture: info.picture,
        google_access_token: Some(access_token),
        google_refresh_token: match refresh_token {
            Some(t) => Some(t),
            None => prior.google_refresh_token,
        },
        google_token_expires_at: expires_at,
        updated_at: now,
        ..prior
    }
}

/// The user row a first sign-in creates.
pub open spec fn spec_new_user(
    new_id: u128,
    info: GoogleUserInfoView,
    access_token: Seq<char>,
    refresh_token: Option<Seq<char>>,
    expires_at: Option<i64>,
    now: i64,
) -> UserView {
    UserView {
        id: new_id,
        google_id: info.id,
        email: info.email,
        name: info.name,
        profile_picture: info.picture,
        google_access_token: Some(access_token),
        google_refresh_token: refresh_token,
        google_token_expires_at: expires_at,
        created_at: now,
        updated_at: now,
        last_sync_at: None,
    }
}

/// Copy an optional string.
fn clone_opt_string(o: &Option<String>) -> (r: Option<String>)
    ensures
        r.deep_view() == o.deep_view(),
{
    match o {
        Some(s) => Some(s.clone()),
        None => None,
    }
}

/// Record a sign-in: update the user row matching the reported provider id
/// or email with the fresh profile and token material, or create a new row
/// under `new_id` when none matches.  Reports the id of the row written.
pub fn create_or_update_user(
    store: &mut EntityStore,
    info: &GoogleUserInfo,
    access_token: &String,
    refresh_token: &Option<String>,
    expires_at: Option<i64>,
    new_id: u128,
    now: i64,
) -> (user_id: u128)
    ensures
        final(store)@.entities == old(store)@.entities,
        ({
            let us = old(store)@.users;
            match spec_find_user_by_identity(us, info@.id, info@.email) {
                Some(i) => final(store)@.users == us.update(
                    i,
                    spec_signed_in_user(
                        us[i],
                        info@,
                        access_token@,
                        refresh_token.deep_view(),
                        expires_at,
                        now,
                    ),
                ) && user_id == us[i].id,
                None => final(store)@.users == us.push(
                    spec_new_user(
                        new_id,
                        info@,
                        access_token@,
                        refresh_token.deep_view(),
                        expires_at,
                        now,
                    ),
                ) && user_id == new_id,
            }
        }),
{
    let n = store.users.len();
    let mut i: usize = 0;
    while i < n
        invariant
            n == store.users.len(),
            i <= n,
            store@ == old(store)@,
            forall|j: int|
                0 <= j < i ==> !identity_key(info@.id, info@.email)(old(store)@.users[j]),
        decreases n - i,
    {
        let hit = {
            let u = &store.users[i];
            u.google_id == info.id || u.email == info.email
        };
        if hit {
            proof {
                lemma_first_match_is(store@.users, identity_key(info@.id, info@.email), i as int);
            }
            let ghost prior = store@.users;
            let u = &store.users[i];
            let user_id = u.id;
            let updated = User {
                id: u.id,
                google_id: u.google_id.clone(),
                email: u.email.clone(),
                name: info.name.clone(),
                profile_picture: clone_opt_string(&info.picture),
                google_access_token: Some(access_token.clone()),
                google_refresh_token: match refresh_token {
                    Some(t) => Some(t.clone()),
                    None => clone_opt_string(&u.google_refresh_token),
                },
                google_token_expires_at: expires_at,
                created_at: u.created_at,
                updated_at: now,
                last_sync_at: u.last_sync_at,
            };
            store.users.set(i, updated);
            proof {
                assert(store@.users =~= prior.update(
                    i as int,
                    spec_signed_in_user(
                        prior[i as int],
                        info@,
                        access_token@,
                        refresh_token.deep_view(),
                        expires_at,
                        now,
                    ),
                ));
            }
            return user_id;
        }
        i = i + 1;
    }
    proof {
        lemma_first_match_none(store@.users, identity_key(info@.id, info@.email));
    }
    let ghost prior = store@.users;
    let fresh = User {
        id: new_id,
        google_id: info.id.clone(),
        email: info.email.clone(),
        name: info.name.clone(),
        profile_picture: clone_opt_string(&info.picture),
        google_access_token: Some(access_token.clone()),
        google_refresh_token: clone_opt_string(refresh_token),
        google_token_expires_at: expires_at,
        created_at: now,
        updated_at: now,
        last_sync_at: None,
    };
    store.users.push(fresh);
    proof {
        assert(store@.users =~= prior.push(
            spec_new_user(
                new_id,
                info@,
                access_token@,
                refresh_token.deep_view(),
                expires_at,
                now,
            ),
        ));
    }
    new_id
}

/// Forget a user's stored Google tokens, forcing the next call to sign in
/// again.  A row is changed only when the user table holds one for
/// `user_id`.
pub fn clear_user_tokens(store: &mut EntityStore, user_id: u128)
    ensures
        final(store)@.entities == old(store)@.entities,
        ({
            let us = old(store)@.users;
            match spec_find_user(us, user_id) {
                Some(i) => final(store)@.users == us.update(
                    i,
                    (UserView {
                        google_access_token: None,
                        google_refresh_token: None,
                        google_token_expires_at: None,
                        ..us[i]
                    }),
                ),
                None => final(store)@.users == us,
            }
        }),
{
    let n = store.users.len();
    let mut i: usize = 0;
    while i < n
        invariant
            n == store.users.len(),
            i <= n,
            store@ == old(store)@,
            forall|j: int| 0 <= j < i ==> !user_key(user_id)(old(store)@.users[j]),
        decreases n - i,
    {
        if store.users[i].id == user_id {
            proof {
                lemma_first_match_is(store@.users, user_key(user_id), i as int);
            }
            let ghost prior = store@.users;
            let u = &store.users[i];
            let updated = User {
                id: u.id,
                google_id: u.google_id.clone(),
                email: u.email.clone(),
                name: u.name.clone(),
                profile_picture: clone_opt_string(&u.profile_picture),
                google_access_token: None,
                google_refresh_token: None,
                google_token_expires_at: None,
                created_at: u.created_at,
                updated_at: u.updated_at,
                last_sync_at: u.last_sync_at,
            };
            store.users.set(i, updated);
            proof {
                assert(store@.users =~= prior.update(
                    i as int,
                    (UserView {
                        google_access_token: None,
                        google_refresh_token: None,
                        google_token_expires_at: None,
                        ..prior[i as int]
                    }),
                ));
            }
            return ;
        }
        i = i + 1;
    }
    proof {
        lemma_first_match_none(store@.users, user_key(user_id));
    }
}


/// Store a freshly refreshed access token on the user's row, with its new
/// expiry.  A row is changed only when the user table holds one for
/// `user_id`.
pub fn update_user_tokens(
    store: &mut EntityStore,
    user_id: u128,
    access_token: &String,
    expires_at: Option<i64>,
    now: i64,
)
    ensures
        final(store)@.entities == old(store)@.entities,
        ({
            let us = old(store)@.users;
            match spec_find_user(us, user_id) {
                Some(i) => final(store)@.users == us.update(
                    i,
                    (UserView {
                        google_access_token: Some(access_token@),
                        google_token_expires_at: expires_at,
                        updated_at: now,
                        ..us[i]
                    }),
                ),
                None => final(store)@.users == us,
            }
        }),
{
    let n = store.users.len();
    let mut i: usize = 0;
    while i < n
        invariant
            n == store.users.len(),
            i <= n,
            store@ == old(store)@,
            forall|j: int| 0 <= j < i ==> !user_key(user_id)(old(store)@.users[j]),
        decreases n - i,
    {
        if store.users[i].id == user_id {
            proof {
                lemma_first_match_is(store@.users, user_key(user_id), i as int);
            }
            let ghost prior = store@.users;
            let u = &store.users[i];
            let updated = User {
                id: u.id,
                google_id: u.google_id.clone(),
                email: u.email.clone(),
                name: u.name.clone(),
                profile_picture: clone_opt_string(&u.profile_picture),
                google_access_token: Some(access_token.clone()),
                google_refresh_token: clone_opt_string(&u.google_refresh_token),
                google_token_expires_at: expires_at,
                created_at: u.created_at,
                updated_at: now,
                last_sync_at: u.last_sync_at,
            };
            store.users.set(i, updated);
            proof {
                assert(store@.users =~= prior.update(
                    i as int,
                    (UserView {
                        google_access_token: Some(access_token@),
                        google_token_expires_at: expires_at,
                        updated_at: now,
                        ..prior[i as int]
                    }),
                ));
            }
            return ;
        }
        i = i + 1;
    }
    proof {
        lemma_first_match_none(store@.users, user_key(user_id));
    }
}

} // verus!

