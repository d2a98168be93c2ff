//! Version-conflict resolution: the pure decision at the heart of sync.
//!
//! Given the store's current version for an entity (if any) and the version a
//! client believes it has, decide whether the client's submission creates the
//! entity, updates it, changes nothing, or conflicts with a newer server copy.

use vstd::prelude::*;

verus! {

/// The outcome of comparing a client-submitted version against the store.
#[derive(Clone, Copy, Debug, PartialEq, Eq, Structural)]
pub enum Decision {
    /// No record exists yet: store the submission at its own version.
    Create,
    /// The store's copy is older: accept the submission as the new state.
    Update,
    /// The store already holds exactly this version: nothing to apply.
    NoChange,
    /// The store's copy is newer: the client edited a stale snapshot.
    Conflict,
}

/// What `resolve` decides, as a pure function of the two versions.
pub open spec fn spec_resolve(existing: Option<u32>, incoming: u32) -> Decision {
    match existing {
        None => Decision::Create,
        Some(v) => if v == incoming {
            Decision::NoChange
        } else if v < incoming {
            Decision::Update
        } else {
            Decision::Conflict
        },
    }
}

/// Decide what to do with a client submission whose believed version is
/// `incoming`, when the store currently holds `existing` (or no record).
///
/// The same rule applies uniformly to edits and to deletions: a deletion is
/// an update whose target state is a tombstone, so deleting on the basis of a
/// stale version is reported as a conflict like any other stale edit.
pub fn resolve(existing: Option<u32>, incoming: u32) -> (d: Decision)
    ensures
        d == spec_resolve(existing, incoming),
{
    match existing {
        None => Decision::Create,
        Some(v) => {
            if v == incoming {
                Decision::NoChange
            } else if v < incoming {
                Decision::Update
            } else {
                Decision::Conflict
            }
        },
    }
}

} // verus!
