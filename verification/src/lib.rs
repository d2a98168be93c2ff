//! Optimistic-concurrency synchronization for a personal-productivity backend.
//!
//! The library reconciles a client's locally edited copies of notes, tasks and
//! habits against a server-side entity store, using per-entity version
//! counters to detect conflicting edits.  Every record carries a monotonically
//! advancing version and a soft-delete marker; a client edit is accepted only
//! when it is based on the store's current version, and a stale edit is
//! reported back as a conflict instead of being applied.

pub mod auth;
pub mod backup;
pub mod config;
pub mod crud;
pub mod errors;
pub mod executor;
pub mod laws;
pub mod model;
pub mod resolver;
pub mod store;
pub mod sync;
pub mod text;
