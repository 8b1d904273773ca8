//! What the engine publishes on the event bus.

use vstd::prelude::*;
use crate::records::{FileRecord, FileRecordView, MessageRecord, MessageRecordView, TaskRecord, TaskRecordView};
use crate::space::{first_of, Space, SpaceManager, SpaceView};
use crate::user::{lemma_place_of, user_of, User, UserManager, UserView};
use crate::utils::{id_bytes, u2b};

verus! {

/// Tells subscribers that the answers of one query are out of date.
#[derive(Debug)]
pub struct InvalidateOperationEvent {
    /// The name of the query, such as `files.list`.
    pub key: String,
}

/// A notification on the event bus. Each carries whole records, so that a
/// subscriber has nothing to fetch.
#[derive(Debug)]
pub enum CoreEvent {
    TaskUpdate { tasks: Vec<TaskRecord> },
    FileUpdate { files: Vec<FileRecord> },
    MessageUpdate { messages: Vec<MessageRecord> },
    InvalidateOperation(InvalidateOperationEvent),
}

pub enum CoreEventView {
    TaskUpdate { tasks: Seq<TaskRecordView> },
    FileUpdate { files: Seq<FileRecordView> },
    MessageUpdate { messages: Seq<MessageRecordView> },
    InvalidateOperation { key: Seq<char> },
}

impl View for CoreEvent {
    type V = CoreEventView;

    open spec fn view(&self) -> CoreEventView {
        match self {
            CoreEvent::TaskUpdate { tasks } => CoreEventView::TaskUpdate {
                tasks: tasks@.map_values(|t: TaskRecord| t@),
            },
            CoreEvent::FileUpdate { files } => CoreEventView::FileUpdate {
                files: files@.map_values(|f: FileRecord| f@),
            },
            CoreEvent::MessageUpdate { messages } => CoreEventView::MessageUpdate {
                messages: messages@.map_values(|m: MessageRecord| m@),
            },
            CoreEvent::InvalidateOperation(e) => CoreEventView::InvalidateOperation { key: e.key@ },
        }
    }
}

/// The views of a list of notifications, in order.
pub open spec fn events_view(events: Seq<CoreEvent>) -> Seq<CoreEventView> {
    events.map_values(|e: CoreEvent| e@)
}

impl CoreEvent {
    /// The notification that one task row changed.
    pub fn task_updated(task: TaskRecord) -> (event: CoreEvent)
        ensures
            event@ == (CoreEventView::TaskUpdate { tasks: seq![task@] }),
    {
        let mut tasks: Vec<TaskRecord> = Vec::new();
        tasks.push(task);
        assert(tasks@.map_values(|t: TaskRecord| t@) =~= seq![task@]);
        CoreEvent::TaskUpdate { tasks }
    }

    /// The notification that one file row changed.
    pub fn file_updated(file: FileRecord) -> (event: CoreEvent)
        ensures
            event@ == (CoreEventView::FileUpdate { files: seq![file@] }),
    {
        let mut files: Vec<FileRecord> = Vec::new();
        files.push(file);
        assert(files@.map_values(|f: FileRecord| f@) =~= seq![file@]);
        CoreEvent::FileUpdate { files }
    }

    /// The notification that one message row changed.
    pub fn message_updated(message: MessageRecord) -> (event: CoreEvent)
        ensures
            event@ == (CoreEventView::MessageUpdate { messages: seq![message@] }),
    {
        let mut messages: Vec<MessageRecord> = Vec::new();
        messages.push(message);
        assert(messages@.map_values(|m: MessageRecord| m@) =~= seq![message@]);
        CoreEvent::MessageUpdate { messages }
    }

    /// The notification that the answers of the query `key` are out of date.
    pub fn invalidate(key: &str) -> (event: CoreEvent)
        ensures
            event@ == (CoreEventView::InvalidateOperation { key: key@ }),
    {
        CoreEvent::InvalidateOperation(InvalidateOperationEvent { key: key.to_owned() })
    }
}

impl CoreEvent {
    /// The task rows of a notification that tasks changed; `None` for any
    /// other notification.
    pub fn into_tasks(self) -> (tasks: Option<Vec<TaskRecord>>)
        ensures
            match self {
                CoreEvent::TaskUpdate { tasks: t } => tasks == Some(t),
                _ => tasks is None,
            },
    {
        match self {
            CoreEvent::TaskUpdate { tasks } => Some(tasks),
            _ => None,
        }
    }

    /// The file rows of a notification that files changed; `None` for any
    /// other notification.
    pub fn into_files(self) -> (files: Option<Vec<FileRecord>>)
        ensures
            match self {
                CoreEvent::FileUpdate { files: f } => files == Some(f),
                _ => files is None,
            },
    {
        match self {
            CoreEvent::FileUpdate { files } => Some(files),
            _ => None,
        }
    }

    /// The message rows of a notification that messages changed; `None`
    /// for any other notification.
    pub fn into_messages(self) -> (messages: Option<Vec<MessageRecord>>)
        ensures
            match self {
                CoreEvent::MessageUpdate { messages: m } => messages == Some(m),
                _ => messages is None,
            },
    {
        match self {
            CoreEvent::MessageUpdate { messages } => Some(messages),
            _ => None,
        }
    }
}

/// A file as a list shows it.
#[derive(Debug)]
pub struct FileWrapped {
    pub id: u128,
    pub name: String,
    pub file_with_tasks: FileRecord,
}

/// How many messages a page holds unless the caller asks for another
/// number.
pub const DEFAULT_PAGE: i32 = 100;

/// One page of the messages of a space, newest first.
#[derive(Debug)]
pub struct MessagesWrapped {
    /// Where the next page starts: the last message that the store gave.
    pub cursor: Option<u128>,
    pub messages: Vec<MessageRecord>,
}

/// How many messages a page holds.
pub fn page_size(take: Option<i32>) -> (n: i32)
    ensures
        n == match take {
            Some(t) => t,
            None => DEFAULT_PAGE,
        },
{
    match take {
        Some(t) => t,
        None => DEFAULT_PAGE,
    }
}

/// How many messages to ask the store for: one more than the page holds,
/// so that the last one can serve as the start of the next page.
pub fn query_limit(take: i32) -> (limit: i64)
    ensures
        limit == take + 1,
{
    let wide: i64 = take as i64;
    wide + 1
}

/// How many of `available` messages go on a page of the size `take`. A
/// size below zero puts no limit on the page.
pub open spec fn spec_page_len(available: nat, take: i32) -> nat {
    if take < 0 || take >= available {
        available
    } else {
        take as nat
    }
}

/// The page of the size `take` from the rows that the store gave.
pub fn page(rows: Vec<MessageRecord>, take: i32) -> (page: MessagesWrapped)
    ensures
        page.cursor == if rows@.len() > 0 {
            Some(rows@.last().id)
        } else {
            None
        },
        page.messages@ == rows@.take(spec_page_len(rows@.len(), take) as int),
{
    let n = rows.len();
    let cursor = if n > 0 {
        Some(rows[n - 1].id)
    } else {
        None
    };
    let mut messages = rows;
    if take >= 0 && (take as u64) < (n as u64) {
        messages.truncate(take as usize);
        assert(messages@ =~= rows@.take(take as int));
    } else {
        assert(messages@ =~= rows@.take(n as int));
    }
    MessagesWrapped { cursor, messages }
}

/// A change to what a space is called.
#[derive(Debug)]
pub enum MetaUpdate {
    Name(String),
    Description(String),
}

pub enum MetaUpdateView {
    Name(Seq<char>),
    Description(Seq<char>),
}

impl View for MetaUpdate {
    type V = MetaUpdateView;

    open spec fn view(&self) -> MetaUpdateView {
        match self {
            MetaUpdate::Name(n) => MetaUpdateView::Name(n@),
            MetaUpdate::Description(d) => MetaUpdateView::Description(d@),
        }
    }
}

/// The views of a list of changes.
pub open spec fn updates_view(updates: Seq<MetaUpdate>) -> Seq<MetaUpdateView> {
    updates.map_values(|u: MetaUpdate| u@)
}

/// Whether a text is long enough to be a name or a description: more than
/// three bytes.
pub open spec fn long_enough(text: Seq<char>) -> bool {
    vstd::utf8::encode_utf8(text).len() > 3
}

/// The changes that an edit makes: the name and the description are
/// changed where they are given and long enough, the name first.
pub open spec fn spec_meta_updates(
    name: Option<Seq<char>>,
    description: Option<Seq<char>>,
) -> Seq<MetaUpdateView> {
    (match name {
        Some(n) if long_enough(n) => seq![MetaUpdateView::Name(n)],
        _ => Seq::empty(),
    }) + (match description {
        Some(d) if long_enough(d) => seq![MetaUpdateView::Description(d)],
        _ => Seq::empty(),
    })
}

/// The changes that an edit makes.
pub fn meta_updates(name: Option<String>, description: Option<String>) -> (updates: Vec<
    MetaUpdate,
>)
    ensures
        updates_view(updates@) == spec_meta_updates(
            crate::records::text_view(name),
            crate::records::text_view(description),
        ),
{
    let mut updates: Vec<MetaUpdate> = Vec::new();
    if let Some(n) = name {
        if n.as_str().as_bytes().len() > 3 {
            updates.push(MetaUpdate::Name(n));
        }
    }
    if let Some(d) = description {
        if d.as_str().as_bytes().len() > 3 {
            updates.push(MetaUpdate::Description(d));
        }
    }
    assert(updates_view(updates@) =~= spec_meta_updates(
        crate::records::text_view(name),
        crate::records::text_view(description),
    ));
    updates
}

/// The store keys of the tasks that the dispatcher knows, by which their
/// rows are looked up.
pub fn task_filters(ids: &Vec<u128>) -> (keys: Vec<Vec<u8>>)
    ensures
        keys@.len() == ids@.len(),
        forall|i: int| 0 <= i < ids@.len() ==> (#[trigger] keys@[i])@ == id_bytes(ids@[i]),
{
    let mut keys: Vec<Vec<u8>> = Vec::new();
    let mut i: usize = 0;
    while i < ids.len()
        invariant
            0 <= i <= ids@.len(),
            keys@.len() == i,
            forall|k: int| 0 <= k < i ==> (#[trigger] keys@[k])@ == id_bytes(ids@[k]),
        decreases ids@.len() - i,
    {
        keys.push(u2b(ids[i]));
        i = i + 1;
    }
    keys
}

/// Why a caller may not use an operation.
#[derive(Clone, Copy, Debug, PartialEq, Eq, Structural)]
pub enum AccessError {
    /// The token stands for no user.
    InvalidUser,
    /// The node holds no such space.
    InvalidSpace,
    /// The space belongs to another user.
    NotOwner,
}

impl AccessError {
    pub fn message(&self) -> (text: &'static str)
        ensures
            text@ == match *self {
                AccessError::InvalidUser => "You must specify a valid user to use this operation."@,
                AccessError::InvalidSpace => "You must specify a valid space to use this operation."@,
                AccessError::NotOwner => "Invalid space access permissions."@,
            },
    {
        match self {
            AccessError::InvalidUser => "You must specify a valid user to use this operation.",
            AccessError::InvalidSpace => "You must specify a valid space to use this operation.",
            AccessError::NotOwner => "Invalid space access permissions.",
        }
    }
}

/// The user that a caller is, where `subject` is the subject of its token,
/// or `None` for a token that is not valid.
pub fn user(users: &UserManager, subject: Option<u128>) -> (r: Result<User, AccessError>)
    ensures
        match r {
            Ok(u) => subject is Some && user_of(users@, subject->0) == Some(u@),
            Err(e) => e == AccessError::InvalidUser && (subject is None || user_of(
                users@,
                subject->0,
            ) is None),
        },
{
    match users.user_from_jwt(subject) {
        Some(u) => Ok(u),
        None => Err(AccessError::InvalidUser),
    }
}

/// Whether a caller may use the space `space_id`: its token has to stand
/// for a user, the node has to hold the space, and the space has to belong
/// to that user; the first of these that fails is the error.
pub open spec fn spec_space_access(
    users: Seq<UserView>,
    spaces: Seq<SpaceView>,
    subject: Option<u128>,
    space_id: u128,
) -> Result<SpaceView, AccessError> {
    if subject is None || user_of(users, subject->0) is None {
        Err(AccessError::InvalidUser)
    } else {
        match first_of(spaces, space_id) {
            None => Err(AccessError::InvalidSpace),
            Some(s) => if s.owner_id != subject->0 {
                Err(AccessError::NotOwner)
            } else {
                Ok(s)
            },
        }
    }
}

/// The space that a caller asks for, if it may use it.
pub fn space(
    users: &UserManager,
    spaces: &SpaceManager,
    subject: Option<u128>,
    space_id: u128,
) -> (r: Result<Space, AccessError>)
    ensures
        match r {
            Ok(s) => spec_space_access(users@, spaces@, subject, space_id) == Ok::<
                SpaceView,
                AccessError,
            >(s@),
            Err(e) => spec_space_access(users@, spaces@, subject, space_id) == Err::<
                SpaceView,
                AccessError,
            >(e),
        },
{
    let caller = match users.user_from_jwt(subject) {
        Some(u) => u,
        None => {
            return Err(AccessError::InvalidUser);
        },
    };
    let found = match spaces.get_space(space_id) {
        Some(s) => s,
        None => {
            return Err(AccessError::InvalidSpace);
        },
    };
    proof {
        lemma_place_of(users@, subject->0);
    }
    if found.owner_id != caller.id {
        Err(AccessError::NotOwner)
    } else {
        Ok(found)
    }
}

} // verus!
