//! Whole-account export: collecting a user's live records, and the byte
//! encoding applied before a backup leaves for off-device storage.
//!
//! Uploading, downloading and serializing are transport concerns and stay
//! outside the library; here live the collection of what a backup holds and
//! the (reversible) encoding of its bytes.  The encoding is plain base64 —
//! a stand-in, not encryption — and the key parameter is accepted only for
//! interface compatibility.

use vstd::prelude::*;

use base64::Engine;

use crate::crud::{
    collect_notes, collect_tasks, list_habits, spec_list_habits, spec_list_notes, spec_list_tasks,
};
use crate::errors::{AppError, ErrorView};
use crate::model::{HabitResponse, NoteResponse, TaskResponse};
use crate::store::{EntityStore, table_wf};

verus! {

/// What base64's standard alphabet encodes a byte sequence to.
pub uninterp spec fn b64_of(bytes: Seq<u8>) -> Seq<char>;

/// Relies on base64's `STANDARD` engine: `encode` is a function of the
/// input bytes alone.
#[verifier::external_body]
fn b64_encode(data: &[u8]) -> (r: String)
    ensures
        r@ == b64_of(data@),
{
    base64::engine::general_purpose::STANDARD.encode(data)
}

#[verifier::external_type_specification]
#[verifier::external_body]
pub struct ExDecodeError(base64::DecodeError);

/// Relies on base64's `STANDARD` engine: `decode` requires canonical
/// padding and rejects set trailing bits, so it accepts exactly the strings
/// some byte sequence encodes to, and returns those bytes.
#[verifier::external_body]
fn b64_decode(s: &str) -> (r: Result<Vec<u8>, base64::DecodeError>)
    ensures
        r matches Ok(b) ==> s@ == b64_of(b@),
        forall|b: Seq<u8>| s@ == b64_of(b) ==> r is Ok && r.unwrap()@ == b,
{
    base64::engine::general_purpose::STANDARD.decode(s)
}

/// A whole-account backup: every live record the owner holds, stamped with
/// the collection time and a format version.
#[derive(Debug)]
pub struct BackupData {
    pub user_id: u128,
    pub created_at: i64,
    pub version: String,
    pub notes: Vec<NoteResponse>,
    pub tasks: Vec<TaskResponse>,
    pub habits: Vec<HabitResponse>,
}

/// Collect everything a backup holds: the owner's live notes, tasks and
/// habits, unfiltered and unpaged, in table order.
pub fn collect_backup(store: &EntityStore, owner: u128, now: i64) -> (b: BackupData)
    requires
        table_wf(store@.entities),
    ensures
        b.user_id == owner,
        b.created_at == now,
        b.version@ == "1.0"@,
        b.notes.deep_view() == spec_list_notes(store@.entities, owner, None),
        b.tasks.deep_view() == spec_list_tasks(store@.entities, owner, None),
        b.habits.deep_view() == spec_list_habits(store@.entities, owner),
{
    let notes = collect_notes(store, owner, &None);
    let tasks = collect_tasks(store, owner, None);
    let habits = list_habits(store, owner);
    BackupData {
        user_id: owner,
        created_at: now,
        version: String::from_str("1.0"),
        notes,
        tasks,
        habits,
    }
}

/// Encode serialized backup bytes for storage.  The key is accepted for
/// interface compatibility and ignored: the encoding is plain base64.
pub fn encrypt_backup_data(data: &[u8], _encryption_key: &str) -> (r: String)
    ensures
        r@ == b64_of(data@),
{
    b64_encode(data)
}

/// Decode stored backup text back into serialized bytes: the inverse of
/// [`encrypt_backup_data`].  Exactly the strings that are the encoding of
/// some byte sequence are accepted; anything else is reported as a
/// storage-service error.
pub fn decrypt_backup_data(encrypted_data: &str, _encryption_key: &str) -> (r: Result<
    Vec<u8>,
    AppError,
>)
    ensures
        (match r {
            Ok(b) => encrypted_data@ == b64_of(b@),
            Err(e) => (forall|b: Seq<u8>| encrypted_data@ != b64_of(b)) && e@
                == ErrorView::GoogleApi("Decryption failed"@),
        }),
        forall|b: Seq<u8>| encrypted_data@ == b64_of(b) ==> r is Ok && r.unwrap()@ == b,
{
    match b64_decode(encrypted_data) {
        Ok(bytes) => Ok(bytes),
        Err(_) => Err(AppError::GoogleApi(String::from_str("Decryption failed"))),
    }
}

/// Round trip: decoding an encoded backup yields the bytes that were encoded.
pub proof fn lemma_backup_round_trip(data: Seq<u8>, encoded: Seq<char>, decoded: Seq<u8>)
    requires
        encoded == b64_of(data),
        forall|b: Seq<u8>| encoded == b64_of(b) ==> decoded == b,
    ensures
        decoded == data,
{
}

} // verus!
