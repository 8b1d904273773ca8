//! The learn task: hands a file of a space to the ingestion service, and
//! marks it as learned once the service has taken it in.

use vstd::prelude::*;
use std::collections::hash_map::DefaultHasher;
use crate::records::FileRecord;
use crate::status::TaskStatus;
use crate::tasks::{IntoTask, Lifecycle, Step, Task, TaskError, TaskExec, TaskInfo, TaskState, hash_id};
use crate::utils::{id_bytes, is_random_id, join_path, path_join, space_path, spec_space_path, spec_vector_db_path, vector_db_path};

verus! {

pub struct LearnFileTask {}

/// The input of a learn task: the file to ingest.
pub struct LearnFileTaskInfo {
    pub file_id: u128,
}

impl TaskInfo for LearnFileTaskInfo {
    open spec fn spec_task_type() -> Seq<char> {
        "learn_file"@
    }

    open spec fn input_writes(&self) -> Seq<Seq<u8>> {
        seq![id_bytes(self.file_id)]
    }

    fn task_type() -> (tag: &'static str) {
        "learn_file"
    }

    fn hash_input(&self, state: &mut DefaultHasher) {
        hash_id(self.file_id, state);
        assert(old(state)@.push(id_bytes(self.file_id)) =~= old(state)@ + seq![
            id_bytes(self.file_id),
        ]);
    }
}

/// What is sent to the ingestion service.
#[derive(Debug)]
pub struct LearnRequest {
    /// The directory of the vector index of the space.
    pub vector_db_path: String,
    /// Where the file lies.
    pub file_path: String,
}

pub struct LearnRequestView {
    pub vector_db_path: Seq<char>,
    pub file_path: Seq<char>,
}

impl View for LearnRequest {
    type V = LearnRequestView;

    open spec fn view(&self) -> LearnRequestView {
        LearnRequestView { vector_db_path: self.vector_db_path@, file_path: self.file_path@ }
    }
}

/// What the phases of a learn task share.
#[derive(Debug)]
pub struct LearnFileTaskState {
    /// Where the file lies, relative to the directory of the space.
    pub file_rel_path: String,
}

/// The path that the scratch state holds, if there is one.
pub open spec fn data_view(data: Option<LearnFileTaskState>) -> Option<Seq<char>> {
    match data {
        Some(d) => Some(d.file_rel_path@),
        None => None,
    }
}

/// The path of the file, if there is one.
pub open spec fn path_of(file: Option<FileRecord>) -> Option<Seq<char>> {
    match file {
        Some(f) => Some(f.path@),
        None => None,
    }
}

/// Where the ingestion service listens, below the root of the inference
/// server.
pub open spec fn spec_learn_endpoint(server_root: Seq<char>) -> Seq<char> {
    server_root + "/learn"@
}

/// Where the ingestion service listens, below the root of the inference
/// server.
pub fn learn_endpoint(server_root: &str) -> (endpoint: String)
    ensures
        endpoint@ == spec_learn_endpoint(server_root@),
{
    let mut endpoint = server_root.to_owned();
    endpoint.append("/learn");
    endpoint
}

/// Whether an HTTP status code stands for success.
pub fn is_success(code: u16) -> (success: bool)
    ensures
        success == (200 <= code < 300),
{
    200 <= code && code < 300
}

/// The request to ingest the file at `file_rel_path` of the space
/// `space_id`.
pub open spec fn spec_learn_request(
    spaces_dir: Seq<char>,
    space_id: u128,
    file_rel_path: Seq<char>,
) -> LearnRequestView {
    LearnRequestView {
        vector_db_path: spec_vector_db_path(spaces_dir, space_id),
        file_path: path_join(spec_space_path(spaces_dir, space_id), file_rel_path),
    }
}

/// The request to ingest the file at `file_rel_path` of the space
/// `space_id`.
pub fn learn_request(spaces_dir: &str, space_id: u128, file_rel_path: &str) -> (request:
    LearnRequest)
    ensures
        request@ == spec_learn_request(spaces_dir@, space_id, file_rel_path@),
{
    let space = space_path(spaces_dir, space_id);
    LearnRequest {
        vector_db_path: vector_db_path(spaces_dir, space_id),
        file_path: join_path(space.as_str(), file_rel_path),
    }
}

/// What a phase of a learn task asks of its driver.
pub enum LearnRequestKind {
    /// Reply with the file row.
    FindFile { id: u128 },
    /// Link the task to the file, with the modification time of now.
    LinkFile { task_id: u128, file_id: u128 },
    /// Reply with the directory of all spaces.
    SpacesDir,
    /// Create the directory of the vector index if it is not there, then
    /// send the request to the ingestion service. Reply with the status
    /// code of its answer.
    PostLearn(LearnRequest),
    /// Mark the file as learned.
    MarkLearned { file_id: u128 },
}

pub enum LearnRequestKindView {
    FindFile { id: u128 },
    LinkFile { task_id: u128, file_id: u128 },
    SpacesDir,
    PostLearn(LearnRequestView),
    MarkLearned { file_id: u128 },
}

impl View for LearnRequestKind {
    type V = LearnRequestKindView;

    open spec fn view(&self) -> LearnRequestKindView {
        match self {
            LearnRequestKind::FindFile { id } => LearnRequestKindView::FindFile { id: *id },
            LearnRequestKind::LinkFile { task_id, file_id } => LearnRequestKindView::LinkFile {
                task_id: *task_id,
                file_id: *file_id,
            },
            LearnRequestKind::SpacesDir => LearnRequestKindView::SpacesDir,
            LearnRequestKind::PostLearn(r) => LearnRequestKindView::PostLearn(r@),
            LearnRequestKind::MarkLearned { file_id } => LearnRequestKindView::MarkLearned {
                file_id: *file_id,
            },
        }
    }
}

/// What a phase asks next, with the request by its view.
pub enum LearnStepView {
    Ask(LearnRequestKindView),
    Done,
    Failed(TaskError),
}

pub open spec fn step_view(step: Step<LearnRequestKind>) -> LearnStepView {
    match step {
        Step::Ask(r) => LearnStepView::Ask(r@),
        Step::Done => LearnStepView::Done,
        Step::Failed(e) => LearnStepView::Failed(e),
    }
}

/// What the driver hands back to a phase of a learn task.
pub enum LearnReply {
    /// The file row; `None` where the store has no such file.
    File(Option<FileRecord>),
    /// The store did what was asked.
    Stored,
    SpacesDir(String),
    /// The status code with which the ingestion service answered.
    Status(u16),
    /// The ingestion service could not be reached.
    NotSent,
    /// The directory of the vector index could not be created.
    DirNotCreated,
    /// The store failed the request.
    StoreFailed,
}

/// How one turn of setup relates the state before it and the reply to the
/// state after it and to what is asked next.
///
/// Setup looks the file up and links the task to it; it leaves the path of
/// the file as scratch state, and fails where the store has no such file.
pub open spec fn setup_turn(
    task_id: u128,
    pre: TaskState<LearnFileTask>,
    reply: Option<LearnReply>,
    post: TaskState<LearnFileTask>,
    step: Step<LearnRequestKind>,
) -> bool {
    &&& post.info == pre.info
    &&& match reply {
        None => {
            &&& step_view(step) == LearnStepView::Ask(
                LearnRequestKindView::FindFile { id: pre.info.file_id },
            )
            &&& post.cursor == 1
            &&& post.data == pre.data
        },
        Some(LearnReply::File(file)) if pre.cursor == 1 => {
            &&& step_view(step) == LearnStepView::Ask(
                LearnRequestKindView::LinkFile { task_id, file_id: pre.info.file_id },
            )
            &&& post.cursor == 2
            &&& data_view(post.data) == path_of(file)
        },
        Some(LearnReply::Stored) if pre.cursor == 2 => {
            &&& post.cursor == 3
            &&& post.data == pre.data
            &&& step == if pre.data is Some {
                Step::<LearnRequestKind>::Done
            } else {
                Step::<LearnRequestKind>::Failed(TaskError::LearnFileNotFound)
            }
        },
        Some(LearnReply::StoreFailed) => {
            &&& step == Step::<LearnRequestKind>::Failed(TaskError::Store)
            &&& post.cursor == pre.cursor
            &&& post.data == pre.data
        },
        _ => {
            &&& step == Step::<LearnRequestKind>::Failed(TaskError::OutOfOrder)
            &&& post.cursor == pre.cursor
            &&& post.data == pre.data
        },
    }
}

/// How one turn of run relates the state before it and the reply to the
/// state after it and to what is asked next.
///
/// Run sends the place of the file and of the vector index of the space to
/// the ingestion service. Any answer but a success fails the run.
pub open spec fn run_turn(
    space_id: u128,
    pre: TaskState<LearnFileTask>,
    reply: Option<LearnReply>,
    post: TaskState<LearnFileTask>,
    step: Step<LearnRequestKind>,
) -> bool {
    &&& post.info == pre.info
    &&& post.data == pre.data
    &&& match pre.data {
        None => {
            &&& step == Step::<LearnRequestKind>::Failed(TaskError::MissingData)
            &&& post.cursor == pre.cursor
        },
        Some(data) => match reply {
            None => {
                &&& step_view(step) == LearnStepView::Ask(LearnRequestKindView::SpacesDir)
                &&& post.cursor == 1
            },
            Some(LearnReply::SpacesDir(dir)) if pre.cursor == 1 => {
                &&& step_view(step) == LearnStepView::Ask(
                    LearnRequestKindView::PostLearn(
                        spec_learn_request(dir@, space_id, data.file_rel_path@),
                    ),
                )
                &&& post.cursor == 2
            },
            Some(LearnReply::Status(code)) if pre.cursor == 2 => {
                if 200 <= code < 300 {
                    &&& step is Done
                    &&& post.cursor == 3
                } else {
                    &&& step == Step::<LearnRequestKind>::Failed(TaskError::LearnRefused)
                    &&& post.cursor == pre.cursor
                }
            },
            Some(other) => {
                &&& step == Step::<LearnRequestKind>::Failed(
                    match other {
                        LearnReply::NotSent => TaskError::LearnNotSent,
                        LearnReply::DirNotCreated => TaskError::IndexDirNotCreated,
                        LearnReply::StoreFailed => TaskError::Store,
                        _ => TaskError::OutOfOrder,
                    },
                )
                &&& post.cursor == pre.cursor
            },
        },
    }
}

/// How one turn of finish relates the state before it, the status that the
/// run left and the reply to the state after it and to what is asked next.
///
/// Finish marks the file as learned where the run succeeded, and touches
/// nothing where it did not.
pub open spec fn finish_turn(
    pre: TaskState<LearnFileTask>,
    outcome: TaskStatus,
    reply: Option<LearnReply>,
    post: TaskState<LearnFileTask>,
    step: Step<LearnRequestKind>,
) -> bool {
    &&& post.info == pre.info
    &&& post.data == pre.data
    &&& match reply {
        None => if outcome == TaskStatus::Succeeded {
            &&& step_view(step) == LearnStepView::Ask(
                LearnRequestKindView::MarkLearned { file_id: pre.info.file_id },
            )
            &&& post.cursor == 1
        } else {
            &&& step is Done
            &&& post.cursor == 2
        },
        Some(LearnReply::Stored) if pre.cursor == 1 => {
            &&& step is Done
            &&& post.cursor == 2
        },
        Some(LearnReply::StoreFailed) => {
            &&& step == Step::<LearnRequestKind>::Failed(TaskError::Store)
            &&& post.cursor == pre.cursor
        },
        _ => {
            &&& step == Step::<LearnRequestKind>::Failed(TaskError::OutOfOrder)
            &&& post.cursor == pre.cursor
        },
    }
}

impl TaskExec for LearnFileTask {
    type Info = LearnFileTaskInfo;

    type Data = LearnFileTaskState;

    type Request = LearnRequestKind;

    type Reply = LearnReply;

    fn new() -> Self {
        LearnFileTask {  }
    }

    fn setup(
        &self,
        space_id: u128,
        task_id: u128,
        task_info: &mut TaskState<LearnFileTask>,
        reply: Option<LearnReply>,
    ) -> (step: Step<LearnRequestKind>)
        ensures
            setup_turn(task_id, *old(task_info), reply, *final(task_info), step),
    {
        match reply {
            None => {
                task_info.cursor = 1;
                Step::Ask(LearnRequestKind::FindFile { id: task_info.info.file_id })
            },
            Some(LearnReply::File(file)) => {
                if task_info.cursor == 1 {
                    task_info.cursor = 2;
                    task_info.data = match file {
                        Some(f) => Some(LearnFileTaskState { file_rel_path: f.path }),
                        None => None,
                    };
                    Step::Ask(
                        LearnRequestKind::LinkFile { task_id, file_id: task_info.info.file_id },
                    )
                } else {
                    Step::Failed(TaskError::OutOfOrder)
                }
            },
            Some(LearnReply::Stored) => {
                if task_info.cursor == 2 {
                    task_info.cursor = 3;
                    if task_info.data.is_some() {
                        Step::Done
                    } else {
                        Step::Failed(TaskError::LearnFileNotFound)
                    }
                } else {
                    Step::Failed(TaskError::OutOfOrder)
                }
            },
            Some(LearnReply::StoreFailed) => Step::Failed(TaskError::Store),
            Some(_) => Step::Failed(TaskError::OutOfOrder),
        }
    }

    fn run(
        &self,
        space_id: u128,
        task_id: u128,
        task_info: &mut TaskState<LearnFileTask>,
        reply: Option<LearnReply>,
    ) -> (step: Step<LearnRequestKind>)
        ensures
            run_turn(space_id, *old(task_info), reply, *final(task_info), step),
    {
        let file_rel_path = match &task_info.data {
            Some(data) => data.file_rel_path.clone(),
            None => {
                return Step::Failed(TaskError::MissingData);
            },
        };
        match reply {
            None => {
                task_info.cursor = 1;
                Step::Ask(LearnRequestKind::SpacesDir)
            },
            Some(LearnReply::SpacesDir(dir)) => {
                if task_info.cursor == 1 {
                    let request = learn_request(dir.as_str(), space_id, file_rel_path.as_str());
                    task_info.cursor = 2;
                    Step::Ask(LearnRequestKind::PostLearn(request))
                } else {
                    Step::Failed(TaskError::OutOfOrder)
                }
            },
            Some(LearnReply::Status(code)) => {
                if task_info.cursor == 2 {
                    if is_success(code) {
                        task_info.cursor = 3;
                        Step::Done
                    } else {
                        Step::Failed(TaskError::LearnRefused)
                    }
                } else {
                    Step::Failed(TaskError::OutOfOrder)
                }
            },
            Some(LearnReply::NotSent) => Step::Failed(TaskError::LearnNotSent),
            Some(LearnReply::DirNotCreated) => Step::Failed(TaskError::IndexDirNotCreated),
            Some(LearnReply::StoreFailed) => Step::Failed(TaskError::Store),
            Some(_) => Step::Failed(TaskError::OutOfOrder),
        }
    }

    fn finish(
        &self,
        space_id: u128,
        task_id: u128,
        task_info: &mut TaskState<LearnFileTask>,
        outcome: TaskStatus,
        reply: Option<LearnReply>,
    ) -> (step: Step<LearnRequestKind>)
        ensures
            finish_turn(*old(task_info), outcome, reply, *final(task_info), step),
    {
        match reply {
            None => {
                match outcome {
                    TaskStatus::Succeeded => {
                        task_info.cursor = 1;
                        Step::Ask(
                            LearnRequestKind::MarkLearned { file_id: task_info.info.file_id },
                        )
                    },
                    _ => {
                        task_info.cursor = 2;
                        Step::Done
                    },
                }
            },
            Some(LearnReply::Stored) => {
                if task_info.cursor == 1 {
                    task_info.cursor = 2;
                    Step::Done
                } else {
                    Step::Failed(TaskError::OutOfOrder)
                }
            },
            Some(LearnReply::StoreFailed) => Step::Failed(TaskError::Store),
            Some(_) => Step::Failed(TaskError::OutOfOrder),
        }
    }
}

impl IntoTask<LearnFileTask> for LearnFileTaskInfo {
    /// A new task with this input, under a fresh random identity.
    fn runnable(self) -> (task: Task<LearnFileTask>)
        ensures
            is_random_id(task.id),
            task.task_info.info == self,
            task.task_info.data is None,
            task.lifecycle == Lifecycle::Created,
            task.wait is Idle,
    {
        Task::new(self)
    }
}

} // verus!
