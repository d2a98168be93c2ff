//! The data model shared by the sync protocol and the store.
//!
//! Entities (notes, tasks, habits) are identified by a client-assigned id and
//! scoped to an owner.  Each record carries a version counter and an optional
//! soft-delete timestamp.  Clients submit edits as [`SyncItem`]s whose payload
//! is an associative bag of optional fields; each entity kind projects the
//! fields it cares about out of that bag.
//!
//! Every executable type that appears in a contract has a view: a ghost
//! counterpart in which strings are character sequences, so that contracts
//! can speak about field contents (including literal defaults) directly.

use vstd::prelude::*;

verus! {

/// The three kinds of syncable entity.
#[derive(Clone, Copy, Debug, PartialEq, Eq, Structural)]
pub enum EntityType {
    Note,
    Task,
    Habit,
}

/// Per-item outcome reported back to the client after a sync.
#[derive(Clone, Copy, Debug, PartialEq, Eq, Structural)]
pub enum SyncAction {
    Created,
    Updated,
    Deleted,
    NoChange,
    Conflict,
}

/// Workflow state of a task.
#[derive(Clone, Copy, Debug, PartialEq, Eq, Structural)]
pub enum TaskStatus {
    Todo,
    Doing,
    Done,
}

/// Priority of a task.
#[derive(Clone, Copy, Debug, PartialEq, Eq, Structural)]
pub enum TaskPriority {
    Low,
    Medium,
    High,
}

/// The associative payload a client attaches to a sync item.
///
/// Every field is optional; each entity kind reads the fields relevant to it
/// and substitutes documented defaults for absent ones.  Fields irrelevant to
/// the kind being synced are ignored.
#[derive(Debug)]
pub struct Payload {
    pub title: Option<String>,
    pub content: Option<String>,
    pub tags: Option<Vec<String>>,
    pub is_encrypted: Option<bool>,
    pub description: Option<String>,
    pub status: Option<TaskStatus>,
    pub priority: Option<TaskPriority>,
    pub name: Option<String>,
    pub color: Option<String>,
    pub streak: Option<i32>,
    pub completed_dates: Option<Vec<String>>,
}

/// Ghost counterpart of [`Payload`].
pub ghost struct PayloadView {
    pub title: Option<Seq<char>>,
    pub content: Option<Seq<char>>,
    pub tags: Option<Seq<Seq<char>>>,
    pub is_encrypted: Option<bool>,
    pub description: Option<Seq<char>>,
    pub status: Option<TaskStatus>,
    pub priority: Option<TaskPriority>,
    pub name: Option<Seq<char>>,
    pub color: Option<Seq<char>>,
    pub streak: Option<i32>,
    pub completed_dates: Option<Seq<Seq<char>>>,
}

impl View for Payload {
    type V = PayloadView;

    open spec fn view(&self) -> PayloadView {
        PayloadView {
            title: self.title.deep_view(),
            content: self.content.deep_view(),
            tags: self.tags.deep_view(),
            is_encrypted: self.is_encrypted,
            description: self.description.deep_view(),
            status: self.status,
            priority: self.priority,
            name: self.name.deep_view(),
            color: self.color.deep_view(),
            streak: self.streak,
            completed_dates: self.completed_dates.deep_view(),
        }
    }
}

impl Payload {
    /// A payload with every field absent.
    pub fn empty() -> (p: Payload)
        ensures
            p@ == PayloadView::empty(),
    {
        Payload {
            title: None,
            content: None,
            tags: None,
            is_encrypted: None,
            description: None,
            status: None,
            priority: None,
            name: None,
            color: None,
            streak: None,
            completed_dates: None,
        }
    }
}

impl PayloadView {
    /// The view of a payload with every field absent.
    pub open spec fn empty() -> PayloadView {
        PayloadView {
            title: None,
            content: None,
            tags: None,
            is_encrypted: None,
            description: None,
            status: None,
            priority: None,
            name: None,
            color: None,
            streak: None,
            completed_dates: None,
        }
    }
}

impl Clone for Payload {
    fn clone(&self) -> (res: Self)
        ensures
            res@ == self@,
    {
        let res = Payload {
            title: self.title.clone(),
            content: self.content.clone(),
            tags: self.tags.clone(),
            is_encrypted: self.is_encrypted,
            description: self.description.clone(),
            status: self.status,
            priority: self.priority,
            name: self.name.clone(),
            color: self.color.clone(),
            streak: self.streak,
            completed_dates: self.completed_dates.clone(),
        };
        proof {
            lemma_cloned_string_vec_option(self.tags, res.tags);
            lemma_cloned_string_vec_option(self.completed_dates, res.completed_dates);
            assert(res@ == self@);
        }
        res
    }
}

/// A clone of an optional vector of strings has the same deep view.
pub proof fn lemma_cloned_string_vec_option(a: Option<Vec<String>>, b: Option<Vec<String>>)
    requires
        cloned(a, b),
    ensures
        b.deep_view() == a.deep_view(),
{
    match (a, b) {
        (Some(va), Some(vb)) => {
            lemma_cloned_string_vec(va, vb);
        },
        _ => {},
    }
}

/// A clone of a vector of strings has the same deep view.
pub proof fn lemma_cloned_string_vec(a: Vec<String>, b: Vec<String>)
    requires
        cloned(a, b),
    ensures
        b.deep_view() == a.deep_view(),
{
    if a == b {
    } else {
        assert(forall|i: int| 0 <= i < a.len() ==> a[i] == b[i]);
        assert(b.deep_view() =~= a.deep_view());
    }
}

/// The kind-specific fields of a stored entity.
#[derive(Debug)]
pub enum EntityFields {
    Note { title: String, content: String, tags: Vec<String>, is_encrypted: bool },
    Task { title: String, description: String, status: TaskStatus, priority: TaskPriority },
    Habit { name: String, color: String, streak: i32, completed_dates: Vec<String> },
}

/// Ghost counterpart of [`EntityFields`].
pub ghost enum FieldsView {
    Note { title: Seq<char>, content: Seq<char>, tags: Seq<Seq<char>>, is_encrypted: bool },
    Task { title: Seq<char>, description: Seq<char>, status: TaskStatus, priority: TaskPriority },
    Habit { name: Seq<char>, color: Seq<char>, streak: i32, completed_dates: Seq<Seq<char>> },
}

impl View for EntityFields {
    type V = FieldsView;

    open spec fn view(&self) -> FieldsView {
        match self {
            EntityFields::Note { title, content, tags, is_encrypted } => (FieldsView::Note {
                title: title.deep_view(),
                content: content.deep_view(),
                tags: tags.deep_view(),
                is_encrypted: *is_encrypted,
            }),
            EntityFields::Task { title, description, status, priority } => (FieldsView::Task {
                title: title.deep_view(),
                description: description.deep_view(),
                status: *status,
                priority: *priority,
            }),
            EntityFields::Habit { name, color, streak, completed_dates } => (FieldsView::Habit {
                name: name.deep_view(),
                color: color.deep_view(),
                streak: *streak,
                completed_dates: completed_dates.deep_view(),
            }),
        }
    }
}

impl FieldsView {
    /// The entity kind these fields belong to.
    pub open spec fn kind(self) -> EntityType {
        match self {
            FieldsView::Note { .. } => EntityType::Note,
            FieldsView::Task { .. } => EntityType::Task,
            FieldsView::Habit { .. } => EntityType::Habit,
        }
    }
}

impl Clone for EntityFields {
    fn clone(&self) -> (res: Self)
        ensures
            res@ == self@,
    {
        match self {
            EntityFields::Note { title, content, tags, is_encrypted } => {
                let tags2 = tags.clone();
                proof {
                    lemma_cloned_string_vec(*tags, tags2);
                }
                EntityFields::Note {
                    title: title.clone(),
                    content: content.clone(),
                    tags: tags2,
                    is_encrypted: *is_encrypted,
                }
            },
            EntityFields::Task { title, description, status, priority } => {
                EntityFields::Task {
                    title: title.clone(),
                    description: description.clone(),
                    status: *status,
                    priority: *priority,
                }
            },
            EntityFields::Habit { name, color, streak, completed_dates } => {
                let dates2 = completed_dates.clone();
                proof {
                    lemma_cloned_string_vec(*completed_dates, dates2);
                }
                EntityFields::Habit {
                    name: name.clone(),
                    color: color.clone(),
                    streak: *streak,
                    completed_dates: dates2,
                }
            },
        }
    }
}

/// One row of the entity store.
#[derive(Debug)]
pub struct StoredEntity {
    pub kind: EntityType,
    pub id: u128,
    pub owner: u128,
    pub version: u32,
    pub created_at: i64,
    pub updated_at: i64,
    pub deleted_at: Option<i64>,
    pub fields: EntityFields,
}

/// Ghost counterpart of [`StoredEntity`].
pub ghost struct RecordView {
    pub kind: EntityType,
    pub id: u128,
    pub owner: u128,
    pub version: u32,
    pub created_at: i64,
    pub updated_at: i64,
    pub deleted_at: Option<i64>,
    pub fields: FieldsView,
}

impl View for StoredEntity {
    type V = RecordView;

    open spec fn view(&self) -> RecordView {
        RecordView {
            kind: self.kind,
            id: self.id,
            owner: self.owner,
            version: self.version,
            created_at: self.created_at,
            updated_at: self.updated_at,
            deleted_at: self.deleted_at,
            fields: self.fields@,
        }
    }
}

impl RecordView {
    /// A record is live when its soft-delete marker is not set.
    pub open spec fn is_live(self) -> bool {
        self.deleted_at is None
    }
}

impl Clone for StoredEntity {
    fn clone(&self) -> (res: Self)
        ensures
            res@ == self@,
    {
        StoredEntity {
            kind: self.kind,
            id: self.id,
            owner: self.owner,
            version: self.version,
            created_at: self.created_at,
            updated_at: self.updated_at,
            deleted_at: self.deleted_at,
            fields: self.fields.clone(),
        }
    }
}

/// One entity the client wants reconciled.
#[derive(Debug)]
pub struct SyncItem {
    pub id: u128,
    pub version: u32,
    pub deleted: bool,
    pub data: Option<Payload>,
}

/// Ghost counterpart of [`SyncItem`].
pub ghost struct ItemView {
    pub id: u128,
    pub version: u32,
    pub deleted: bool,
    pub data: Option<PayloadView>,
}

impl View for SyncItem {
    type V = ItemView;

    open spec fn view(&self) -> ItemView {
        ItemView {
            id: self.id,
            version: self.version,
            deleted: self.deleted,
            data: match self.data {
                Some(p) => Some(p@),
                None => None,
            },
        }
    }
}

/// The server's verdict on one processed sync item.
#[derive(Debug)]
pub struct SyncResult {
    pub id: u128,
    pub version: u32,
    pub action: SyncAction,
    pub data: Option<Payload>,
}

/// Ghost counterpart of [`SyncResult`].
pub ghost struct ResultView {
    pub id: u128,
    pub version: u32,
    pub action: SyncAction,
    pub data: Option<PayloadView>,
}

impl View for SyncResult {
    type V = ResultView;

    open spec fn view(&self) -> ResultView {
        ResultView {
            id: self.id,
            version: self.version,
            action: self.action,
            data: match self.data {
                Some(p) => Some(p@),
                None => None,
            },
        }
    }
}

/// A detected divergence, reported with both sides' payloads so the client
/// can present a merge choice.
#[derive(Debug)]
pub struct ConflictInfo {
    pub entity_type: EntityType,
    pub entity_id: u128,
    pub local_version: u32,
    pub server_version: u32,
    pub local_data: Option<Payload>,
    pub server_data: EntityFields,
}

/// Ghost counterpart of [`ConflictInfo`].
pub ghost struct ConflictView {
    pub entity_type: EntityType,
    pub entity_id: u128,
    pub local_version: u32,
    pub server_version: u32,
    pub local_data: Option<PayloadView>,
    pub server_data: FieldsView,
}

impl View for ConflictInfo {
    type V = ConflictView;

    open spec fn view(&self) -> ConflictView {
        ConflictView {
            entity_type: self.entity_type,
            entity_id: self.entity_id,
            local_version: self.local_version,
            server_version: self.server_version,
            local_data: match self.local_data {
                Some(p) => Some(p@),
                None => None,
            },
            server_data: self.server_data@,
        }
    }
}

/// A batch of per-kind item lists submitted by one client.
#[derive(Debug)]
pub struct SyncRequest {
    pub notes: Vec<SyncItem>,
    pub tasks: Vec<SyncItem>,
    pub habits: Vec<SyncItem>,
}

/// Ghost counterpart of [`SyncRequest`].
pub ghost struct RequestView {
    pub notes: Seq<ItemView>,
    pub tasks: Seq<ItemView>,
    pub habits: Seq<ItemView>,
}

impl View for SyncRequest {
    type V = RequestView;

    open spec fn view(&self) -> RequestView {
        RequestView {
            notes: self.notes.deep_view(),
            tasks: self.tasks.deep_view(),
            habits: self.habits.deep_view(),
        }
    }
}

impl DeepView for SyncItem {
    type V = ItemView;

    open spec fn deep_view(&self) -> ItemView {
        self.view()
    }
}

/// The aggregated response to a sync batch.
#[derive(Debug)]
pub struct SyncResponse {
    pub notes: Vec<SyncResult>,
    pub tasks: Vec<SyncResult>,
    pub habits: Vec<SyncResult>,
    pub conflicts: Vec<ConflictInfo>,
}

/// Ghost counterpart of [`SyncResponse`].
pub ghost struct ResponseView {
    pub notes: Seq<ResultView>,
    pub tasks: Seq<ResultView>,
    pub habits: Seq<ResultView>,
    pub conflicts: Seq<ConflictView>,
}

impl View for SyncResponse {
    type V = ResponseView;

    open spec fn view(&self) -> ResponseView {
        ResponseView {
            notes: self.notes.deep_view(),
            tasks: self.tasks.deep_view(),
            habits: self.habits.deep_view(),
            conflicts: self.conflicts.deep_view(),
        }
    }
}

impl DeepView for SyncResult {
    type V = ResultView;

    open spec fn deep_view(&self) -> ResultView {
        self.view()
    }
}

impl DeepView for ConflictInfo {
    type V = ConflictView;

    open spec fn deep_view(&self) -> ConflictView {
        self.view()
    }
}

/// Per-entity version report, the client's input for local diffing.
///
/// The server has no notion of the client's local state, so `local_version`
/// mirrors `server_version` and the flags are cleared; the client overwrites
/// them while diffing against its own copy.
#[derive(Clone, Copy, Debug, PartialEq, Eq, Structural)]
pub struct SyncStatus {
    pub entity_type: EntityType,
    pub entity_id: u128,
    pub local_version: u32,
    pub server_version: u32,
    pub needs_sync: bool,
    pub conflict: bool,
}


/// Body of a direct note-creation request.
#[derive(Debug)]
pub struct CreateNoteRequest {
    pub title: String,
    pub content: String,
    pub tags: Vec<String>,
    pub is_encrypted: Option<bool>,
}

/// Ghost counterpart of [`CreateNoteRequest`].
pub ghost struct CreateNoteRequestView {
    pub title: Seq<char>,
    pub content: Seq<char>,
    pub tags: Seq<Seq<char>>,
    pub is_encrypted: Option<bool>,
}

impl View for CreateNoteRequest {
    type V = CreateNoteRequestView;

    open spec fn view(&self) -> CreateNoteRequestView {
        CreateNoteRequestView {
            title: self.title.deep_view(),
            content: self.content.deep_view(),
            tags: self.tags.deep_view(),
            is_encrypted: self.is_encrypted,
        }
    }
}

/// Body of a direct version-checked note update; absent fields keep the
/// stored value.
#[derive(Debug)]
pub struct UpdateNoteRequest {
    pub title: Option<String>,
    pub content: Option<String>,
    pub tags: Option<Vec<String>>,
    pub is_encrypted: Option<bool>,
    pub version: u32,
}

/// Ghost counterpart of [`UpdateNoteRequest`].
pub ghost struct UpdateNoteRequestView {
    pub title: Option<Seq<char>>,
    pub content: Option<Seq<char>>,
    pub tags: Option<Seq<Seq<char>>>,
    pub is_encrypted: Option<bool>,
    pub version: u32,
}

impl View for UpdateNoteRequest {
    type V = UpdateNoteRequestView;

    open spec fn view(&self) -> UpdateNoteRequestView {
        UpdateNoteRequestView {
            title: self.title.deep_view(),
            content: self.content.deep_view(),
            tags: self.tags.deep_view(),
            is_encrypted: self.is_encrypted,
            version: self.version,
        }
    }
}

/// Body of a direct task-creation request.
#[derive(Debug)]
pub struct CreateTaskRequest {
    pub title: String,
    pub description: String,
    pub status: TaskStatus,
    pub priority: TaskPriority,
}

/// Ghost counterpart of [`CreateTaskRequest`].
pub ghost struct CreateTaskRequestView {
    pub title: Seq<char>,
    pub description: Seq<char>,
    pub status: TaskStatus,
    pub priority: TaskPriority,
}

impl View for CreateTaskRequest {
    type V = CreateTaskRequestView;

    open spec fn view(&self) -> CreateTaskRequestView {
        CreateTaskRequestView {
            title: self.title.deep_view(),
            description: self.description.deep_view(),
            status: self.status,
            priority: self.priority,
        }
    }
}

/// Body of a direct version-checked task update; absent fields keep the
/// stored value.
#[derive(Debug)]
pub struct UpdateTaskRequest {
    pub title: Option<String>,
    pub description: Option<String>,
    pub status: Option<TaskStatus>,
    pub priority: Option<TaskPriority>,
    pub version: u32,
}

/// Ghost counterpart of [`UpdateTaskRequest`].
pub ghost struct UpdateTaskRequestView {
    pub title: Option<Seq<char>>,
    pub description: Option<Seq<char>>,
    pub status: Option<TaskStatus>,
    pub priority: Option<TaskPriority>,
    pub version: u32,
}

impl View for UpdateTaskRequest {
    type V = UpdateTaskRequestView;

    open spec fn view(&self) -> UpdateTaskRequestView {
        UpdateTaskRequestView {
            title: self.title.deep_view(),
            description: self.description.deep_view(),
            status: self.status,
            priority: self.priority,
            version: self.version,
        }
    }
}

/// Body of a direct habit-creation request.
#[derive(Debug)]
pub struct CreateHabitRequest {
    pub name: String,
    pub color: String,
}

/// Ghost counterpart of [`CreateHabitRequest`].
pub ghost struct CreateHabitRequestView {
    pub name: Seq<char>,
    pub color: Seq<char>,
}

impl View for CreateHabitRequest {
    type V = CreateHabitRequestView;

    open spec fn view(&self) -> CreateHabitRequestView {
        CreateHabitRequestView { name: self.name.deep_view(), color: self.color.deep_view() }
    }
}

/// Body of a direct version-checked habit update; absent fields keep the
/// stored value.
#[derive(Debug)]
pub struct UpdateHabitRequest {
    pub name: Option<String>,
    pub color: Option<String>,
    pub streak: Option<i32>,
    pub completed_dates: Option<Vec<String>>,
    pub version: u32,
}

/// Ghost counterpart of [`UpdateHabitRequest`].
pub ghost struct UpdateHabitRequestView {
    pub name: Option<Seq<char>>,
    pub color: Option<Seq<char>>,
    pub streak: Option<i32>,
    pub completed_dates: Option<Seq<Seq<char>>>,
    pub version: u32,
}

impl View for UpdateHabitRequest {
    type V = UpdateHabitRequestView;

    open spec fn view(&self) -> UpdateHabitRequestView {
        UpdateHabitRequestView {
            name: self.name.deep_view(),
            color: self.color.deep_view(),
            streak: self.streak,
            completed_dates: self.completed_dates.deep_view(),
            version: self.version,
        }
    }
}

/// Identity attributes used when a user row is first created.
#[derive(Debug)]
pub struct CreateUserRequest {
    pub google_id: String,
    pub email: String,
    pub name: String,
    pub profile_picture: Option<String>,
}

/// Ghost counterpart of [`CreateUserRequest`].
pub ghost struct CreateUserRequestView {
    pub google_id: Seq<char>,
    pub email: Seq<char>,
    pub name: Seq<char>,
    pub profile_picture: Option<Seq<char>>,
}

impl View for CreateUserRequest {
    type V = CreateUserRequestView;

    open spec fn view(&self) -> CreateUserRequestView {
        CreateUserRequestView {
            google_id: self.google_id.deep_view(),
            email: self.email.deep_view(),
            name: self.name.deep_view(),
            profile_picture: self.profile_picture.deep_view(),
        }
    }
}

/// Profile attributes a user may change.
#[derive(Debug)]
pub struct UpdateUserRequest {
    pub name: Option<String>,
    pub profile_picture: Option<String>,
}

/// Ghost counterpart of [`UpdateUserRequest`].
pub ghost struct UpdateUserRequestView {
    pub name: Option<Seq<char>>,
    pub profile_picture: Option<Seq<char>>,
}

impl View for UpdateUserRequest {
    type V = UpdateUserRequestView;

    open spec fn view(&self) -> UpdateUserRequestView {
        UpdateUserRequestView {
            name: self.name.deep_view(),
            profile_picture: self.profile_picture.deep_view(),
        }
    }
}

/// Query parameters of the note-listing endpoint.
#[derive(Debug)]
pub struct NotesQuery {
    pub limit: Option<i64>,
    pub offset: Option<i64>,
    pub search: Option<String>,
}

/// Ghost counterpart of [`NotesQuery`].
pub ghost struct NotesQueryView {
    pub limit: Option<i64>,
    pub offset: Option<i64>,
    pub search: Option<Seq<char>>,
}

impl View for NotesQuery {
    type V = NotesQueryView;

    open spec fn view(&self) -> NotesQueryView {
        NotesQueryView {
            limit: self.limit,
            offset: self.offset,
            search: self.search.deep_view(),
        }
    }
}

/// Query parameters of the task-listing endpoint.
#[derive(Clone, Copy, Debug, PartialEq, Eq, Structural)]
pub struct TasksQuery {
    pub limit: Option<i64>,
    pub offset: Option<i64>,
    pub status: Option<TaskStatus>,
}

/// A note as the single-entity handlers report it.
#[derive(Debug)]
pub struct NoteResponse {
    pub id: u128,
    pub title: String,
    pub content: String,
    pub tags: Vec<String>,
    pub is_encrypted: bool,
    pub created_at: i64,
    pub updated_at: i64,
    pub version: u32,
}

/// Ghost counterpart of [`NoteResponse`].
pub ghost struct NoteResponseView {
    pub id: u128,
    pub title: Seq<char>,
    pub content: Seq<char>,
    pub tags: Seq<Seq<char>>,
    pub is_encrypted: bool,
    pub created_at: i64,
    pub updated_at: i64,
    pub version: u32,
}

impl View for NoteResponse {
    type V = NoteResponseView;

    open spec fn view(&self) -> NoteResponseView {
        NoteResponseView {
            id: self.id,
            title: self.title.deep_view(),
            content: self.content.deep_view(),
            tags: self.tags.deep_view(),
            is_encrypted: self.is_encrypted,
            created_at: self.created_at,
            updated_at: self.updated_at,
            version: self.version,
        }
    }
}

impl DeepView for NoteResponse {
    type V = NoteResponseView;

    open spec fn deep_view(&self) -> NoteResponseView {
        self.view()
    }
}

/// A task as the single-entity handlers report it.
#[derive(Debug)]
pub struct TaskResponse {
    pub id: u128,
    pub title: String,
    pub description: String,
    pub status: TaskStatus,
    pub priority: TaskPriority,
    pub created_at: i64,
    pub updated_at: i64,
    pub version: u32,
}

/// Ghost counterpart of [`TaskResponse`].
pub ghost struct TaskResponseView {
    pub id: u128,
    pub title: Seq<char>,
    pub description: Seq<char>,
    pub status: TaskStatus,
    pub priority: TaskPriority,
    pub created_at: i64,
    pub updated_at: i64,
    pub version: u32,
}

impl View for TaskResponse {
    type V = TaskResponseView;

    open spec fn view(&self) -> TaskResponseView {
        TaskResponseView {
            id: self.id,
            title: self.title.deep_view(),
            description: self.description.deep_view(),
            status: self.status,
            priority: self.priority,
            created_at: self.created_at,
            updated_at: self.updated_at,
            version: self.version,
        }
    }
}

impl DeepView for TaskResponse {
    type V = TaskResponseView;

    open spec fn deep_view(&self) -> TaskResponseView {
        self.view()
    }
}

/// A habit as the single-entity handlers report it.
#[derive(Debug)]
pub struct HabitResponse {
    pub id: u128,
    pub name: String,
    pub color: String,
    pub streak: i32,
    pub completed_dates: Vec<String>,
    pub created_at: i64,
    pub updated_at: i64,
    pub version: u32,
}

/// Ghost counterpart of [`HabitResponse`].
pub ghost struct HabitResponseView {
    pub id: u128,
    pub name: Seq<char>,
    pub color: Seq<char>,
    pub streak: i32,
    pub completed_dates: Seq<Seq<char>>,
    pub created_at: i64,
    pub updated_at: i64,
    pub version: u32,
}

impl View for HabitResponse {
    type V = HabitResponseView;

    open spec fn view(&self) -> HabitResponseView {
        HabitResponseView {
            id: self.id,
            name: self.name.deep_view(),
            color: self.color.deep_view(),
            streak: self.streak,
            completed_dates: self.completed_dates.deep_view(),
            created_at: self.created_at,
            updated_at: self.updated_at,
            version: self.version,
        }
    }
}

impl DeepView for HabitResponse {
    type V = HabitResponseView;

    open spec fn deep_view(&self) -> HabitResponseView {
        self.view()
    }
}

} // verus!

