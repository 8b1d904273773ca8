//! The task framework: what a task kind has to provide, and the wrapper that
//! gives every kind the same three-phase life.
//!
//! Nothing here waits or talks to the store. A phase is a conversation: the
//! wrapper says what it needs next (a `TaskRequest`), its driver performs that
//! and hands back what came of it (a `TaskReply`), until the phase is over.

use vstd::prelude::*;
use std::collections::hash_map::DefaultHasher;
use std::collections::VecDeque;
use std::hash::Hasher;
use vstd::std_specs::hash::DefaultHasherAdditionalSpecFns;
use crate::api::{CoreEvent, CoreEventView, events_view};
use crate::records::{FileRecord, FileRecordView, MessageRecord, MessageRecordView, TaskRecord, TaskRecordView};
use crate::status::TaskStatus;
use crate::utils::{decimal_text, id_bytes, id_text, is_random_id, new_id, u2s, u64_text};

pub mod dispatcher;
pub mod learn_file;
pub mod reply;
pub mod trace;
pub mod upload_file;

verus! {

/// What hashing the text `s` writes into a hasher.
pub uninterp spec fn str_hash_writes(s: Seq<char>) -> Seq<Seq<u8>>;

/// `Hash::hash` of a `str`: what it writes depends on the text alone.
#[verifier::external_body]
pub(crate) fn hash_str(s: &str, state: &mut DefaultHasher)
    ensures
        final(state)@ == old(state)@ + str_hash_writes(s@),
{
    std::hash::Hash::hash(s, state)
}

/// `Hash::hash` of a `uuid::Uuid`: one write of its sixteen bytes.
#[verifier::external_body]
pub(crate) fn hash_id(id: u128, state: &mut DefaultHasher)
    ensures
        final(state)@ == old(state)@.push(id_bytes(id)),
{
    std::hash::Hash::hash(&uuid::Uuid::from_u128(id), state)
}

/// The dedup hash of a task of the kind `kind` whose input writes `input`
/// into a hasher: the kind tag is hashed first, then the input.
pub open spec fn spec_dedup_hash(kind: Seq<char>, input: Seq<Seq<u8>>) -> u64 {
    DefaultHasher::spec_finish(str_hash_writes(kind) + input)
}

/// The parameters that a caller submits with a task of one kind.
pub trait TaskInfo {
    /// The kind tag of the tasks that take this input.
    spec fn spec_task_type() -> Seq<char>;

    /// What hashing this input writes into a hasher.
    spec fn input_writes(&self) -> Seq<Seq<u8>>;

    fn task_type() -> (tag: &'static str)
        ensures
            tag@ == Self::spec_task_type(),
    ;

    fn hash_input(&self, state: &mut DefaultHasher)
        ensures
            final(state)@ == old(state)@ + self.input_writes(),
    ;

    /// The dedup hash: a function of the kind tag and the input alone.
    fn hash(&self) -> (h: u64)
        ensures
            h == spec_dedup_hash(Self::spec_task_type(), self.input_writes()),
    {
        let mut s = DefaultHasher::new();
        hash_str(Self::task_type(), &mut s);
        self.hash_input(&mut s);
        let h = s.finish();
        h
    }
}

/// Two inputs of one kind that write the same into a hasher have the same
/// dedup hash.
pub proof fn lemma_equal_inputs_equal_hash<I: TaskInfo>(a: I, b: I)
    requires
        a.input_writes() == b.input_writes(),
    ensures
        spec_dedup_hash(I::spec_task_type(), a.input_writes()) == spec_dedup_hash(
            I::spec_task_type(),
            b.input_writes(),
        ),
{
}

/// The three phases of a task, in the order in which they run.
#[derive(Clone, Copy, Debug, PartialEq, Eq, Structural)]
pub enum Phase {
    Setup,
    Run,
    Finish,
}

/// Where a task instance stands in its life.
#[derive(Clone, Copy, Debug, PartialEq, Eq, Structural)]
pub enum Lifecycle {
    Created,
    SetupInProgress,
    /// Set up, and waiting for its turn to run.
    Queued,
    /// Running, or run and being finished.
    Running,
    Finished(TaskStatus),
}

/// Why a phase ended early.
#[derive(Clone, Copy, Debug, PartialEq, Eq, Structural)]
pub enum TaskError {
    /// A phase was asked for out of turn, or an answer came to a question
    /// that was not asked.
    OutOfOrder,
    /// The store refused to create or change a row.
    Store,
    TaskNotFound,
    /// The file linked to the task is not in the store.
    FileNotFound,
    /// The message linked to the task is not in the store.
    MessageNotFound,
    /// The final status could not be written.
    StatusNotWritten,
    /// The scratch state that setup should have left is not there.
    MissingData,
    /// The size of the uploaded file could not be read.
    FileSizeUnknown,
    /// The uploaded file is larger than the store can record.
    FileTooLarge,
    /// The size of the uploaded file could not be recorded.
    FileSizeNotRecorded,
    /// The file to ingest is not in the store.
    LearnFileNotFound,
    /// The directory of the vector index could not be created.
    IndexDirNotCreated,
    /// The ingestion service could not be reached.
    LearnNotSent,
    /// The ingestion service answered with a failure.
    LearnRefused,
    /// The conversation history could not be serialised.
    HistoryNotSerialized,
    /// The answer service could not be reached.
    AskNotSent,
    /// The answer of the answer service could not be read.
    AskNotParsed,
}

impl TaskError {
    /// The text that goes with the error.
    pub fn message(&self) -> (text: &'static str)
        ensures
            text@ == match *self {
                TaskError::OutOfOrder => "Task phase requested out of order"@,
                TaskError::Store => "Failed to write to the store"@,
                TaskError::TaskNotFound => "Failed to find task"@,
                TaskError::FileNotFound => "Failed to find file associated with task"@,
                TaskError::MessageNotFound => "Failed to find message associated with task"@,
                TaskError::StatusNotWritten => "Failed to update task status"@,
                TaskError::MissingData => "Failed to get upload task data"@,
                TaskError::FileSizeUnknown => "Failed to get file size"@,
                TaskError::FileTooLarge => "File size out of range"@,
                TaskError::FileSizeNotRecorded => "Failed to update file size"@,
                TaskError::LearnFileNotFound => "Failed to find file"@,
                TaskError::IndexDirNotCreated => "Failed to create vector index directory"@,
                TaskError::LearnNotSent => "Failed to send learn request"@,
                TaskError::LearnRefused => "Failed to learn file"@,
                TaskError::HistoryNotSerialized => "Failed to serialize chat history to json"@,
                TaskError::AskNotSent => "Failed to send ask request"@,
                TaskError::AskNotParsed => "Failed to parse ask response"@,
            },
    {
        match self {
            TaskError::OutOfOrder => "Task phase requested out of order",
            TaskError::Store => "Failed to write to the store",
            TaskError::TaskNotFound => "Failed to find task",
            TaskError::FileNotFound => "Failed to find file associated with task",
            TaskError::MessageNotFound => "Failed to find message associated with task",
            TaskError::StatusNotWritten => "Failed to update task status",
            TaskError::MissingData => "Failed to get upload task data",
            TaskError::FileSizeUnknown => "Failed to get file size",
            TaskError::FileTooLarge => "File size out of range",
            TaskError::FileSizeNotRecorded => "Failed to update file size",
            TaskError::LearnFileNotFound => "Failed to find file",
            TaskError::IndexDirNotCreated => "Failed to create vector index directory",
            TaskError::LearnNotSent => "Failed to send learn request",
            TaskError::LearnRefused => "Failed to learn file",
            TaskError::HistoryNotSerialized => "Failed to serialize chat history to json",
            TaskError::AskNotSent => "Failed to send ask request",
            TaskError::AskNotParsed => "Failed to parse ask response",
        }
    }
}

/// What a phase of a task kind wants next from its driver.
pub enum Step<R> {
    /// Perform the request and come back with what came of it.
    Ask(R),
    /// The phase is over.
    Done,
    /// The phase is over, in error.
    Failed(TaskError),
}

/// The input of a task and the scratch state that its phases share.
pub struct TaskState<T: TaskExec> {
    pub info: T::Info,
    /// Left by setup, read and extended by run and finish.
    pub data: Option<T::Data>,
    /// How many requests of the phase under way have been answered.
    pub cursor: usize,
}

/// A task kind: three phases over a state of its own.
///
/// Each phase is a conversation. It is entered with no reply, and asks for
/// one thing at a time until it says `Done` or `Failed`; the reply to what it
/// asked comes with the next call.
pub trait TaskExec: Sized {
    type Info: TaskInfo;

    type Data;

    /// What a phase of this kind can ask of its driver.
    type Request;

    /// What the driver can hand back.
    type Reply;

    fn new() -> Self;

    fn setup(
        &self,
        space_id: u128,
        task_id: u128,
        task_info: &mut TaskState<Self>,
        reply: Option<Self::Reply>,
    ) -> Step<Self::Request>;

    fn run(
        &self,
        space_id: u128,
        task_id: u128,
        task_info: &mut TaskState<Self>,
        reply: Option<Self::Reply>,
    ) -> Step<Self::Request>;

    /// `outcome` is the status that the run left.
    fn finish(
        &self,
        space_id: u128,
        task_id: u128,
        task_info: &mut TaskState<Self>,
        outcome: TaskStatus,
        reply: Option<Self::Reply>,
    ) -> Step<Self::Request>;
}

/// The task row that setup asks the store to create.
pub struct NewTask {
    pub id: u128,
    pub id_str: String,
    pub hash: String,
    pub task_type: String,
    pub space_id: u128,
    pub status: i32,
}

pub struct NewTaskView {
    pub id: u128,
    pub id_str: Seq<char>,
    pub hash: Seq<char>,
    pub task_type: Seq<char>,
    pub space_id: u128,
    pub status: i32,
}

impl View for NewTask {
    type V = NewTaskView;

    open spec fn view(&self) -> NewTaskView {
        NewTaskView {
            id: self.id,
            id_str: self.id_str@,
            hash: self.hash@,
            task_type: self.task_type@,
            space_id: self.space_id,
            status: self.status,
        }
    }
}

/// What the wrapper asks of its driver.
pub enum TaskRequest {
    /// Create the task row, with the modification time of now. Reply with
    /// the row.
    CreateTask(NewTask),
    /// Run this phase of the task kind to its end. Reply with how it ended.
    Inner(Phase),
    /// Reply with the task row.
    FindTask { id: u128 },
    /// Write the status and the modification time of now. Reply with the
    /// row.
    WriteStatus { id: u128, status: i32 },
    /// Reply with the file row.
    FindFile { id: u128 },
    /// Reply with the message row.
    FindMessage { id: u128 },
    /// The phase is over.
    Done,
    /// The phase is over, in error.
    Failed(TaskError),
}

pub enum TaskRequestView {
    CreateTask(NewTaskView),
    Inner(Phase),
    FindTask { id: u128 },
    WriteStatus { id: u128, status: i32 },
    FindFile { id: u128 },
    FindMessage { id: u128 },
    Done,
    Failed(TaskError),
}

impl View for TaskRequest {
    type V = TaskRequestView;

    open spec fn view(&self) -> TaskRequestView {
        match self {
            TaskRequest::CreateTask(row) => TaskRequestView::CreateTask(row@),
            TaskRequest::Inner(phase) => TaskRequestView::Inner(*phase),
            TaskRequest::FindTask { id } => TaskRequestView::FindTask { id: *id },
            TaskRequest::WriteStatus { id, status } => TaskRequestView::WriteStatus {
                id: *id,
                status: *status,
            },
            TaskRequest::FindFile { id } => TaskRequestView::FindFile { id: *id },
            TaskRequest::FindMessage { id } => TaskRequestView::FindMessage { id: *id },
            TaskRequest::Done => TaskRequestView::Done,
            TaskRequest::Failed(e) => TaskRequestView::Failed(*e),
        }
    }
}

/// What the driver hands back to the wrapper.
pub enum TaskReply {
    /// The task row that was created, found or changed; `None` where the
    /// store has no such row.
    Task(Option<TaskRecord>),
    File(Option<FileRecord>),
    Message(Option<MessageRecord>),
    /// How the phase of the task kind ended.
    Inner(Result<(), TaskError>),
    /// The store failed the request.
    StoreFailed,
}

pub enum TaskReplyView {
    Task(Option<TaskRecordView>),
    File(Option<FileRecordView>),
    Message(Option<MessageRecordView>),
    Inner(Result<(), TaskError>),
    StoreFailed,
}

impl View for TaskReply {
    type V = TaskReplyView;

    open spec fn view(&self) -> TaskReplyView {
        match self {
            TaskReply::Task(Some(row)) => TaskReplyView::Task(Some(row@)),
            TaskReply::Task(None) => TaskReplyView::Task(None),
            TaskReply::File(Some(row)) => TaskReplyView::File(Some(row@)),
            TaskReply::File(None) => TaskReplyView::File(None),
            TaskReply::Message(Some(row)) => TaskReplyView::Message(Some(row@)),
            TaskReply::Message(None) => TaskReplyView::Message(None),
            TaskReply::Inner(r) => TaskReplyView::Inner(*r),
            TaskReply::StoreFailed => TaskReplyView::StoreFailed,
        }
    }
}

/// One turn of the wrapper: what to publish now, and what it needs next.
pub struct TaskStep {
    pub emit: Vec<CoreEvent>,
    pub next: TaskRequest,
}

/// What the wrapper is waiting for.
pub enum Wait {
    /// Nothing: no phase is under way.
    Idle,
    /// The task row that setup asked the store to create.
    Row,
    /// The end of a phase of the task kind.
    Inner(Phase),
    /// The task row as it stands after the phase of the task kind.
    Task(Phase),
    /// The file linked to the task row.
    File(Phase, TaskRecord),
    /// The message linked to the task row.
    Message(Phase, TaskRecord),
}

pub enum WaitView {
    Idle,
    Row,
    Inner(Phase),
    Task(Phase),
    File(Phase, TaskRecordView),
    Message(Phase, TaskRecordView),
}

impl View for Wait {
    type V = WaitView;

    open spec fn view(&self) -> WaitView {
        match self {
            Wait::Idle => WaitView::Idle,
            Wait::Row => WaitView::Row,
            Wait::Inner(phase) => WaitView::Inner(*phase),
            Wait::Task(phase) => WaitView::Task(*phase),
            Wait::File(phase, row) => WaitView::File(*phase, row@),
            Wait::Message(phase, row) => WaitView::Message(*phase, row@),
        }
    }
}

/// A task instance: an input bound to its kind, under an identity.
pub struct Task<T: TaskExec> {
    pub id: u128,
    pub space_id: Option<u128>,
    pub task_info: TaskState<T>,
    pub task_with_state: T,
    pub queue: VecDeque<Task<T>>,
    pub lifecycle: Lifecycle,
    /// The status handed to finish; `Pending` before.
    pub outcome: TaskStatus,
    /// The error with which setup ended, if it ended in error.
    pub setup_error: Option<TaskError>,
    pub wait: Wait,
}

/// What the wrapper's turns depend on and change.
pub struct TaskView {
    pub id: u128,
    pub task_type: Seq<char>,
    pub hash: u64,
    pub lifecycle: Lifecycle,
    pub outcome: TaskStatus,
    pub setup_error: Option<TaskError>,
    pub wait: WaitView,
}

impl<T: TaskExec> View for Task<T> {
    type V = TaskView;

    open spec fn view(&self) -> TaskView {
        TaskView {
            id: self.id,
            task_type: T::Info::spec_task_type(),
            hash: spec_dedup_hash(T::Info::spec_task_type(), self.task_info.info.input_writes()),
            lifecycle: self.lifecycle,
            outcome: self.outcome,
            setup_error: self.setup_error,
            wait: self.wait@,
        }
    }
}

/// Where the end of a phase leaves the instance. A setup that fails leaves
/// it where it is: it will never be queued. The end of finish is the end of
/// the instance, however finish ended.
pub open spec fn lifecycle_after(t: TaskView, phase: Phase, ok: bool) -> Lifecycle {
    match phase {
        Phase::Setup => if ok {
            Lifecycle::Queued
        } else {
            t.lifecycle
        },
        Phase::Run => t.lifecycle,
        Phase::Finish => Lifecycle::Finished(t.outcome),
    }
}

/// The turn that ends `phase` normally, publishing `events`.
pub open spec fn turn_done(t: TaskView, phase: Phase, events: Seq<CoreEventView>) -> (
    TaskView,
    Seq<CoreEventView>,
    TaskRequestView,
) {
    (
        TaskView { wait: WaitView::Idle, lifecycle: lifecycle_after(t, phase, true), ..t },
        events,
        TaskRequestView::Done,
    )
}

/// The turn that ends `phase` with `error`. The instance keeps the error
/// with which its setup ended.
pub open spec fn turn_failed(t: TaskView, phase: Phase, error: TaskError) -> (
    TaskView,
    Seq<CoreEventView>,
    TaskRequestView,
) {
    (
        TaskView {
            wait: WaitView::Idle,
            lifecycle: lifecycle_after(t, phase, false),
            setup_error: if phase == Phase::Setup {
                Some(error)
            } else {
                t.setup_error
            },
            ..t
        },
        Seq::empty(),
        TaskRequestView::Failed(error),
    )
}

/// The turn that follows the arrival of the task row: fetch the linked file
/// if there is one, else the linked message if there is one, else publish
/// the task row and end the phase.
pub open spec fn turn_after_row(t: TaskView, phase: Phase, row: TaskRecordView) -> (
    TaskView,
    Seq<CoreEventView>,
    TaskRequestView,
) {
    if let Some(file_id) = row.file_id {
        (
            TaskView { wait: WaitView::File(phase, row), ..t },
            Seq::empty(),
            TaskRequestView::FindFile { id: file_id },
        )
    } else if let Some(message_id) = row.message_id {
        (
            TaskView { wait: WaitView::Message(phase, row), ..t },
            Seq::empty(),
            TaskRequestView::FindMessage { id: message_id },
        )
    } else {
        turn_done(t, phase, seq![CoreEventView::TaskUpdate { tasks: seq![row] }])
    }
}

/// The turn on the reply to the creation of the task row: the instance takes
/// the identity of the row and goes on to the setup of its kind.
pub open spec fn turn_on_row(t: TaskView, reply: TaskReplyView) -> (
    TaskView,
    Seq<CoreEventView>,
    TaskRequestView,
) {
    match reply {
        TaskReplyView::Task(Some(row)) => (
            TaskView { id: row.id, wait: WaitView::Inner(Phase::Setup), ..t },
            Seq::empty(),
            TaskRequestView::Inner(Phase::Setup),
        ),
        _ => turn_failed(t, Phase::Setup, TaskError::Store),
    }
}

/// The turn on the end of a phase of the task kind. After setup and run the
/// task row is read back; after finish the status is written. An error of
/// the kind ends the phase with that error, and nothing is read or written.
pub open spec fn turn_on_inner(t: TaskView, phase: Phase, reply: TaskReplyView) -> (
    TaskView,
    Seq<CoreEventView>,
    TaskRequestView,
) {
    match reply {
        TaskReplyView::Inner(Ok(_)) => (
            TaskView { wait: WaitView::Task(phase), ..t },
            Seq::empty(),
            if phase == Phase::Finish {
                TaskRequestView::WriteStatus { id: t.id, status: t.outcome.spec_ordinal() }
            } else {
                TaskRequestView::FindTask { id: t.id }
            },
        ),
        TaskReplyView::Inner(Err(e)) => turn_failed(t, phase, e),
        _ => turn_failed(t, phase, TaskError::OutOfOrder),
    }
}

/// The turn on the arrival of the task row.
pub open spec fn turn_on_task(t: TaskView, phase: Phase, reply: TaskReplyView) -> (
    TaskView,
    Seq<CoreEventView>,
    TaskRequestView,
) {
    match reply {
        TaskReplyView::Task(Some(row)) => turn_after_row(t, phase, row),
        _ => turn_failed(
            t,
            phase,
            if phase == Phase::Finish {
                TaskError::StatusNotWritten
            } else {
                TaskError::TaskNotFound
            },
        ),
    }
}

/// The turn on the arrival of the file linked to the task row `row`: the
/// file is published at once; then the linked message is fetched if there
/// is one, else the task row is published and the phase ends.
pub open spec fn turn_on_file(
    t: TaskView,
    phase: Phase,
    row: TaskRecordView,
    reply: TaskReplyView,
) -> (TaskView, Seq<CoreEventView>, TaskRequestView) {
    match reply {
        TaskReplyView::File(Some(file)) => if let Some(message_id) = row.message_id {
            (
                TaskView { wait: WaitView::Message(phase, row), ..t },
                seq![CoreEventView::FileUpdate { files: seq![file] }],
                TaskRequestView::FindMessage { id: message_id },
            )
        } else {
            turn_done(
                t,
                phase,
                seq![
                    CoreEventView::FileUpdate { files: seq![file] },
                    CoreEventView::TaskUpdate { tasks: seq![row] },
                ],
            )
        },
        _ => turn_failed(t, phase, TaskError::FileNotFound),
    }
}

/// The turn on the arrival of the message linked to the task row `row`: the
/// message is published, then the task row, and the phase ends.
pub open spec fn turn_on_message(
    t: TaskView,
    phase: Phase,
    row: TaskRecordView,
    reply: TaskReplyView,
) -> (TaskView, Seq<CoreEventView>, TaskRequestView) {
    match reply {
        TaskReplyView::Message(Some(message)) => turn_done(
            t,
            phase,
            seq![
                CoreEventView::MessageUpdate { messages: seq![message] },
                CoreEventView::TaskUpdate { tasks: seq![row] },
            ],
        ),
        _ => turn_failed(t, phase, TaskError::MessageNotFound),
    }
}

/// The wrapper's turn on a reply: the instance after it, what it publishes,
/// and what it asks next.
pub open spec fn spec_resume(t: TaskView, reply: TaskReplyView) -> (
    TaskView,
    Seq<CoreEventView>,
    TaskRequestView,
) {
    match t.wait {
        WaitView::Idle => (t, Seq::empty(), TaskRequestView::Failed(TaskError::OutOfOrder)),
        WaitView::Row => turn_on_row(t, reply),
        WaitView::Inner(phase) => turn_on_inner(t, phase, reply),
        WaitView::Task(phase) => turn_on_task(t, phase, reply),
        WaitView::File(phase, row) => turn_on_file(t, phase, row, reply),
        WaitView::Message(phase, row) => turn_on_message(t, phase, row, reply),
    }
}

/// The row that setup asks the store to create for the instance `t` in the
/// space `space_id`: pending, under the instance's identity, kind and hash.
pub open spec fn spec_new_task(t: TaskView, space_id: u128) -> NewTaskView {
    NewTaskView {
        id: t.id,
        id_str: id_text(t.id),
        hash: decimal_text(t.hash as nat),
        task_type: t.task_type,
        space_id,
        status: TaskStatus::Pending.spec_ordinal(),
    }
}

/// The turn that enters setup.
pub open spec fn spec_setup(t: TaskView, space_id: u128) -> (TaskView, TaskRequestView) {
    if t.lifecycle == Lifecycle::Created && t.wait is Idle {
        (
            TaskView { lifecycle: Lifecycle::SetupInProgress, wait: WaitView::Row, ..t },
            TaskRequestView::CreateTask(spec_new_task(t, space_id)),
        )
    } else {
        (t, TaskRequestView::Failed(TaskError::OutOfOrder))
    }
}

/// The turn that enters run.
pub open spec fn spec_run(t: TaskView) -> (TaskView, TaskRequestView) {
    if t.lifecycle == Lifecycle::Queued && t.wait is Idle {
        (
            TaskView { lifecycle: Lifecycle::Running, wait: WaitView::Inner(Phase::Run), ..t },
            TaskRequestView::Inner(Phase::Run),
        )
    } else {
        (t, TaskRequestView::Failed(TaskError::OutOfOrder))
    }
}

/// The turn that enters finish with the status `status`.
pub open spec fn spec_finish(t: TaskView, status: TaskStatus) -> (TaskView, TaskRequestView) {
    if t.lifecycle == Lifecycle::Running && t.wait is Idle {
        (
            TaskView { outcome: status, wait: WaitView::Inner(Phase::Finish), ..t },
            TaskRequestView::Inner(Phase::Finish),
        )
    } else {
        (t, TaskRequestView::Failed(TaskError::OutOfOrder))
    }
}

/// The uniform face of a task instance, whatever its kind.
pub trait DTask: Sized {
    fn id(&self) -> u128;

    fn space_id(&self) -> Option<u128>;

    fn task_type(&self) -> &'static str;

    fn hash(&self) -> u64;

    fn queue(&mut self, queue: VecDeque<Self>);

    /// Enters setup, in the space `space_id`.
    fn setup(&mut self, space_id: u128) -> TaskStep;

    /// Enters run.
    fn run(&mut self) -> TaskStep;

    /// Enters finish, with the status that the run left.
    fn finish(&mut self, task_status: TaskStatus) -> TaskStep;

    /// Goes on with the phase under way, on the reply to what it asked.
    fn resume(&mut self, reply: TaskReply) -> TaskStep;
}

/// What can be made into a task instance that is ready to dispatch.
pub trait IntoTask<T: TaskExec> {
    fn runnable(self) -> Task<T>;
}

impl<T: TaskExec> IntoTask<T> for Task<T> {
    fn runnable(self) -> (task: Task<T>)
        ensures
            task == self,
    {
        self
    }
}

impl<T: TaskExec> Task<T> {
    /// A new instance under the identity `id`.
    pub fn with_id(id: u128, info: T::Info) -> (task: Task<T>)
        ensures
            task.id == id,
            task.space_id is None,
            task.task_info.info == info,
            task.task_info.data is None,
            task.task_info.cursor == 0,
            task.queue@.len() == 0,
            task.lifecycle == Lifecycle::Created,
            task.outcome == TaskStatus::Pending,
            task.setup_error is None,
            task.wait is Idle,
    {
        Task {
            id,
            space_id: None,
            task_info: TaskState { info, data: None, cursor: 0 },
            task_with_state: T::new(),
            queue: VecDeque::new(),
            lifecycle: Lifecycle::Created,
            outcome: TaskStatus::Pending,
            setup_error: None,
            wait: Wait::Idle,
        }
    }

    /// A new instance under a fresh random identity.
    pub fn new(info: T::Info) -> (task: Task<T>)
        ensures
            is_random_id(task.id),
            task.space_id is None,
            task.task_info.info == info,
            task.task_info.data is None,
            task.task_info.cursor == 0,
            task.queue@.len() == 0,
            task.lifecycle == Lifecycle::Created,
            task.outcome == TaskStatus::Pending,
            task.setup_error is None,
            task.wait is Idle,
    {
        Task::with_id(new_id(), info)
    }

    fn end_phase(&mut self, phase: Phase, ok: bool)
        ensures
            final(self).lifecycle == lifecycle_after(old(self)@, phase, ok),
            final(self).id == old(self).id,
            final(self).space_id == old(self).space_id,
            final(self).task_info == old(self).task_info,
            final(self).outcome == old(self).outcome,
            final(self).setup_error == old(self).setup_error,
            final(self).wait == old(self).wait,
            final(self).queue == old(self).queue,
    {
        match phase {
            Phase::Setup => {
                if ok {
                    self.lifecycle = Lifecycle::Queued;
                }
            },
            Phase::Run => {},
            Phase::Finish => {
                self.lifecycle = Lifecycle::Finished(self.outcome);
            },
        }
    }

    fn done(&mut self, phase: Phase, emit: Vec<CoreEvent>) -> (step: TaskStep)
        requires
            old(self).wait is Idle,
        ensures
            (final(self)@, events_view(step.emit@), step.next@) == turn_done(
                old(self)@,
                phase,
                events_view(emit@),
            ),
            final(self).task_info == old(self).task_info,
            final(self).space_id == old(self).space_id,
    {
        self.end_phase(phase, true);
        TaskStep { emit, next: TaskRequest::Done }
    }

    fn failed(&mut self, phase: Phase, error: TaskError) -> (step: TaskStep)
        requires
            old(self).wait is Idle,
        ensures
            (final(self)@, events_view(step.emit@), step.next@) == turn_failed(
                old(self)@,
                phase,
                error,
            ),
            final(self).task_info == old(self).task_info,
            final(self).space_id == old(self).space_id,
    {
        self.end_phase(phase, false);
        match phase {
            Phase::Setup => {
                self.setup_error = Some(error);
            },
            _ => {},
        }
        let emit: Vec<CoreEvent> = Vec::new();
        assert(events_view(emit@) =~= Seq::empty());
        TaskStep { emit, next: TaskRequest::Failed(error) }
    }

    fn after_row(&mut self, phase: Phase, row: TaskRecord) -> (step: TaskStep)
        requires
            old(self).wait is Idle,
        ensures
            (final(self)@, events_view(step.emit@), step.next@) == turn_after_row(
                old(self)@,
                phase,
                row@,
            ),
            final(self).task_info == old(self).task_info,
            final(self).space_id == old(self).space_id,
    {
        match row.file_id {
            Some(file_id) => {
                self.wait = Wait::File(phase, row);
                let emit: Vec<CoreEvent> = Vec::new();
                assert(events_view(emit@) =~= Seq::empty());
                TaskStep { emit, next: TaskRequest::FindFile { id: file_id } }
            },
            None => match row.message_id {
                Some(message_id) => {
                    self.wait = Wait::Message(phase, row);
                    let emit: Vec<CoreEvent> = Vec::new();
                    assert(events_view(emit@) =~= Seq::empty());
                    TaskStep { emit, next: TaskRequest::FindMessage { id: message_id } }
                },
                None => {
                    let mut emit: Vec<CoreEvent> = Vec::new();
                    let event = CoreEvent::task_updated(row);
                    emit.push(event);
                    assert(events_view(emit@) =~= seq![event@]);
                    self.done(phase, emit)
                },
            },
        }
    }

    fn quiet(next: TaskRequest) -> (step: TaskStep)
        ensures
            events_view(step.emit@) == Seq::<CoreEventView>::empty(),
            step.next == next,
    {
        let emit: Vec<CoreEvent> = Vec::new();
        assert(events_view(emit@) =~= Seq::empty());
        TaskStep { emit, next }
    }

    fn on_row(&mut self, reply: TaskReply) -> (step: TaskStep)
        requires
            old(self).wait is Idle,
        ensures
            (final(self)@, events_view(step.emit@), step.next@) == turn_on_row(old(self)@, reply@),
            final(self).task_info == old(self).task_info,
            final(self).space_id == old(self).space_id,
    {
        match reply {
            TaskReply::Task(Some(row)) => {
                self.id = row.id;
                self.wait = Wait::Inner(Phase::Setup);
                Self::quiet(TaskRequest::Inner(Phase::Setup))
            },
            _ => self.failed(Phase::Setup, TaskError::Store),
        }
    }

    fn on_inner(&mut self, phase: Phase, reply: TaskReply) -> (step: TaskStep)
        requires
            old(self).wait is Idle,
        ensures
            (final(self)@, events_view(step.emit@), step.next@) == turn_on_inner(
                old(self)@,
                phase,
                reply@,
            ),
            final(self).task_info == old(self).task_info,
            final(self).space_id == old(self).space_id,
    {
        match reply {
            TaskReply::Inner(Ok(_)) => {
                self.wait = Wait::Task(phase);
                let next = match phase {
                    Phase::Finish => TaskRequest::WriteStatus {
                        id: self.id,
                        status: self.outcome.ordinal(),
                    },
                    _ => TaskRequest::FindTask { id: self.id },
                };
                Self::quiet(next)
            },
            TaskReply::Inner(Err(e)) => self.failed(phase, e),
            _ => self.failed(phase, TaskError::OutOfOrder),
        }
    }

    fn on_task(&mut self, phase: Phase, reply: TaskReply) -> (step: TaskStep)
        requires
            old(self).wait is Idle,
        ensures
            (final(self)@, events_view(step.emit@), step.next@) == turn_on_task(
                old(self)@,
                phase,
                reply@,
            ),
            final(self).task_info == old(self).task_info,
            final(self).space_id == old(self).space_id,
    {
        match reply {
            TaskReply::Task(Some(row)) => self.after_row(phase, row),
            _ => {
                let error = match phase {
                    Phase::Finish => TaskError::StatusNotWritten,
                    _ => TaskError::TaskNotFound,
                };
                self.failed(phase, error)
            },
        }
    }

    fn on_file(&mut self, phase: Phase, row: TaskRecord, reply: TaskReply) -> (step: TaskStep)
        requires
            old(self).wait is Idle,
        ensures
            (final(self)@, events_view(step.emit@), step.next@) == turn_on_file(
                old(self)@,
                phase,
                row@,
                reply@,
            ),
            final(self).task_info == old(self).task_info,
            final(self).space_id == old(self).space_id,
    {
        match reply {
            TaskReply::File(Some(file)) => {
                let mut emit: Vec<CoreEvent> = Vec::new();
                let file_event = CoreEvent::file_updated(file);
                emit.push(file_event);
                match row.message_id {
                    Some(message_id) => {
                        self.wait = Wait::Message(phase, row);
                        assert(events_view(emit@) =~= seq![file_event@]);
                        TaskStep { emit, next: TaskRequest::FindMessage { id: message_id } }
                    },
                    None => {
                        let task_event = CoreEvent::task_updated(row);
                        emit.push(task_event);
                        assert(events_view(emit@) =~= seq![file_event@, task_event@]);
                        self.done(phase, emit)
                    },
                }
            },
            _ => self.failed(phase, TaskError::FileNotFound),
        }
    }

    fn on_message(&mut self, phase: Phase, row: TaskRecord, reply: TaskReply) -> (step: TaskStep)
        requires
            old(self).wait is Idle,
        ensures
            (final(self)@, events_view(step.emit@), step.next@) == turn_on_message(
                old(self)@,
                phase,
                row@,
                reply@,
            ),
            final(self).task_info == old(self).task_info,
            final(self).space_id == old(self).space_id,
    {
        match reply {
            TaskReply::Message(Some(message)) => {
                let mut emit: Vec<CoreEvent> = Vec::new();
                let message_event = CoreEvent::message_updated(message);
                emit.push(message_event);
                let task_event = CoreEvent::task_updated(row);
                emit.push(task_event);
                assert(events_view(emit@) =~= seq![message_event@, task_event@]);
                self.done(phase, emit)
            },
            _ => self.failed(phase, TaskError::MessageNotFound),
        }
    }
}

impl<T: TaskExec> DTask for Task<T> {
    fn id(&self) -> (id: u128)
        ensures
            id == self.id,
    {
        self.id
    }

    fn space_id(&self) -> (space_id: Option<u128>)
        ensures
            space_id == self.space_id,
    {
        self.space_id
    }

    fn task_type(&self) -> (tag: &'static str)
        ensures
            tag@ == self@.task_type,
    {
        T::Info::task_type()
    }

    fn hash(&self) -> (h: u64)
        ensures
            h == self@.hash,
    {
        self.task_info.info.hash()
    }

    fn queue(&mut self, queue: VecDeque<Self>)
        ensures
            final(self).queue == queue,
            final(self)@ == old(self)@,
            final(self).task_info == old(self).task_info,
            final(self).space_id == old(self).space_id,
    {
        self.queue = queue;
    }

    fn setup(&mut self, space_id: u128) -> (step: TaskStep)
        ensures
            (final(self)@, step.next@) == spec_setup(old(self)@, space_id),
            step.emit@.len() == 0,
            final(self).task_info == old(self).task_info,
            final(self).space_id == old(self).space_id,
    {
        let idle = match self.wait {
            Wait::Idle => true,
            _ => false,
        };
        let created = match self.lifecycle {
            Lifecycle::Created => true,
            _ => false,
        };
        if created && idle {
            let hash = self.task_info.info.hash();
            let row = NewTask {
                id: self.id,
                id_str: u2s(self.id),
                hash: u64_text(hash),
                task_type: T::Info::task_type().to_owned(),
                space_id,
                status: TaskStatus::Pending.ordinal(),
            };
            self.lifecycle = Lifecycle::SetupInProgress;
            self.wait = Wait::Row;
            TaskStep { emit: Vec::new(), next: TaskRequest::CreateTask(row) }
        } else {
            TaskStep { emit: Vec::new(), next: TaskRequest::Failed(TaskError::OutOfOrder) }
        }
    }

    fn run(&mut self) -> (step: TaskStep)
        ensures
            (final(self)@, step.next@) == spec_run(old(self)@),
            step.emit@.len() == 0,
            final(self).task_info == old(self).task_info,
            final(self).space_id == old(self).space_id,
    {
        let idle = match self.wait {
            Wait::Idle => true,
            _ => false,
        };
        let queued = match self.lifecycle {
            Lifecycle::Queued => true,
            _ => false,
        };
        if queued && idle {
            self.lifecycle = Lifecycle::Running;
            self.wait = Wait::Inner(Phase::Run);
            TaskStep { emit: Vec::new(), next: TaskRequest::Inner(Phase::Run) }
        } else {
            TaskStep { emit: Vec::new(), next: TaskRequest::Failed(TaskError::OutOfOrder) }
        }
    }

    fn finish(&mut self, task_status: TaskStatus) -> (step: TaskStep)
        ensures
            (final(self)@, step.next@) == spec_finish(old(self)@, task_status),
            step.emit@.len() == 0,
            final(self).task_info == old(self).task_info,
            final(self).space_id == old(self).space_id,
    {
        let idle = match self.wait {
            Wait::Idle => true,
            _ => false,
        };
        let running = match self.lifecycle {
            Lifecycle::Running => true,
            _ => false,
        };
        if running && idle {
            self.outcome = task_status;
            self.wait = Wait::Inner(Phase::Finish);
            TaskStep { emit: Vec::new(), next: TaskRequest::Inner(Phase::Finish) }
        } else {
            TaskStep { emit: Vec::new(), next: TaskRequest::Failed(TaskError::OutOfOrder) }
        }
    }

    fn resume(&mut self, reply: TaskReply) -> (step: TaskStep)
        ensures
            (final(self)@, events_view(step.emit@), step.next@) == spec_resume(
                old(self)@,
                reply@,
            ),
            final(self).task_info == old(self).task_info,
            final(self).space_id == old(self).space_id,
    {
        let mut wait = Wait::Idle;
        core::mem::swap(&mut self.wait, &mut wait);
        match wait {
            Wait::Idle => Self::quiet(TaskRequest::Failed(TaskError::OutOfOrder)),
            Wait::Row => self.on_row(reply),
            Wait::Inner(phase) => self.on_inner(phase, reply),
            Wait::Task(phase) => self.on_task(phase, reply),
            Wait::File(phase, row) => self.on_file(phase, row, reply),
            Wait::Message(phase, row) => self.on_message(phase, row, reply),
        }
    }
}

} // verus!
