use std::collections::VecDeque;
use server::api::CoreEvent;
use server::records::{FileRecord, MessageRecord, TaskRecord};
use server::status::TaskStatus;
use server::tasks::upload_file::{FileUploadTask, FileUploadTaskInfo};
use server::tasks::{
    DTask, IntoTask, Lifecycle, Phase, Task, TaskError, TaskReply, TaskRequest, TaskStep, Wait,
};

const SPACE: u128 = 0x11;
const ID: u128 = 0xa1a2a3a4b1b2c1c2d1d2d3d4d5d6d7d8;

fn task() -> Task<FileUploadTask> {
    Task::with_id(ID, FileUploadTaskInfo { path: "notes.pdf".to_string() })
}

fn row(id: u128, status: i32, file_id: Option<u128>, message_id: Option<u128>) -> TaskRecord {
    TaskRecord {
        id,
        task_type: "file_upload".to_string(),
        hash: "0".to_string(),
        status,
        space_id: SPACE,
        file_id,
        message_id,
    }
}

fn file(id: u128, size: i32) -> FileRecord {
    FileRecord {
        id,
        path: "notes.pdf".to_string(),
        name: "notes".to_string(),
        extension: "pdf".to_string(),
        supported: true,
        learned: false,
        size,
        space_id: SPACE,
    }
}

fn message(id: u128) -> MessageRecord {
    MessageRecord {
        id,
        text: "hello".to_string(),
        is_user_message: true,
        response_status: 0,
        date_created: 1,
        space_id: SPACE,
        response_text: None,
    }
}

/// What a notification is about: its kind, the identity of its one row, and
/// the status or size of that row.
fn about(event: &CoreEvent) -> (&'static str, u128, i32) {
    match event {
        CoreEvent::TaskUpdate { tasks } => {
            assert_eq!(tasks.len(), 1);
            ("task", tasks[0].id, tasks[0].status)
        }
        CoreEvent::FileUpdate { files } => {
            assert_eq!(files.len(), 1);
            ("file", files[0].id, files[0].size)
        }
        CoreEvent::MessageUpdate { messages } => {
            assert_eq!(messages.len(), 1);
            ("message", messages[0].id, messages[0].response_status)
        }
        CoreEvent::InvalidateOperation(_) => ("invalidate", 0, 0),
    }
}

fn events(step: &TaskStep) -> Vec<(&'static str, u128, i32)> {
    step.emit.iter().map(about).collect()
}

fn error_of(step: &TaskStep) -> TaskError {
    match step.next {
        TaskRequest::Failed(e) => e,
        _ => panic!("the step did not fail"),
    }
}

/// Takes a new task through its setup, with a store that holds the file 5
/// for it.
fn set_up() -> Task<FileUploadTask> {
    let mut t = task();
    t.setup(SPACE);
    t.resume(TaskReply::Task(Some(row(ID, 0, None, None))));
    t.resume(TaskReply::Inner(Ok(())));
    t.resume(TaskReply::Task(Some(row(ID, 0, Some(5), None))));
    let last = t.resume(TaskReply::File(Some(file(5, 0))));
    assert!(matches!(last.next, TaskRequest::Done));
    t
}

#[test]
fn new_task_is_created_and_idle() {
    let t = task();
    assert_eq!(t.id(), ID);
    assert_eq!(t.space_id(), None);
    assert_eq!(t.task_type(), "file_upload");
    assert_eq!(t.lifecycle, Lifecycle::Created);
    assert_eq!(t.outcome, TaskStatus::Pending);
    assert_eq!(t.setup_error, None);
    assert!(matches!(t.wait, Wait::Idle));
    assert!(t.task_info.data.is_none());
    assert!(t.queue.is_empty());
}

#[test]
fn runnable_task_is_the_task() {
    let t = task().runnable();
    assert_eq!(t.id(), ID);
    assert_eq!(t.lifecycle, Lifecycle::Created);
}

#[test]
fn queue_is_replaced() {
    let mut t = task();
    t.queue(VecDeque::from(vec![Task::with_id(1, FileUploadTaskInfo { path: "a".to_string() })]));
    assert_eq!(t.queue.len(), 1);
    assert_eq!(t.queue[0].id(), 1);
    assert_eq!(t.lifecycle, Lifecycle::Created);
}

#[test]
fn setup_asks_for_a_pending_row() {
    let mut t = task();
    let step = t.setup(SPACE);
    assert!(step.emit.is_empty());
    match step.next {
        TaskRequest::CreateTask(new) => {
            assert_eq!(new.id, ID);
            assert_eq!(new.id_str, "a1a2a3a4-b1b2-c1c2-d1d2-d3d4d5d6d7d8");
            assert_eq!(new.hash, t.hash().to_string());
            assert_eq!(new.task_type, "file_upload");
            assert_eq!(new.space_id, SPACE);
            assert_eq!(new.status, 0);
        }
        _ => panic!("setup did not ask for the row"),
    }
    assert_eq!(t.lifecycle, Lifecycle::SetupInProgress);
}

#[test]
fn setup_takes_the_identity_of_the_row_and_runs_the_kind() {
    let mut t = task();
    t.setup(SPACE);
    let step = t.resume(TaskReply::Task(Some(row(77, 0, None, None))));
    assert!(matches!(step.next, TaskRequest::Inner(Phase::Setup)));
    assert!(step.emit.is_empty());
    assert_eq!(t.id(), 77);
    let step = t.resume(TaskReply::Inner(Ok(())));
    assert!(matches!(step.next, TaskRequest::FindTask { id: 77 }));
}

#[test]
fn setup_publishes_the_file_then_the_task() {
    let mut t = task();
    t.setup(SPACE);
    t.resume(TaskReply::Task(Some(row(ID, 0, None, None))));
    t.resume(TaskReply::Inner(Ok(())));
    let step = t.resume(TaskReply::Task(Some(row(ID, 0, Some(5), None))));
    assert!(matches!(step.next, TaskRequest::FindFile { id: 5 }));
    assert!(step.emit.is_empty());
    let step = t.resume(TaskReply::File(Some(file(5, 0))));
    assert!(matches!(step.next, TaskRequest::Done));
    assert_eq!(events(&step), vec![("file", 5, 0), ("task", ID, 0)]);
    assert_eq!(t.lifecycle, Lifecycle::Queued);
    assert!(matches!(t.wait, Wait::Idle));
}

#[test]
fn phase_publishes_the_task_alone_where_nothing_is_linked() {
    let mut t = task();
    t.setup(SPACE);
    t.resume(TaskReply::Task(Some(row(ID, 0, None, None))));
    t.resume(TaskReply::Inner(Ok(())));
    let step = t.resume(TaskReply::Task(Some(row(ID, 0, None, None))));
    assert!(matches!(step.next, TaskRequest::Done));
    assert_eq!(events(&step), vec![("task", ID, 0)]);
}

#[test]
fn phase_publishes_the_message_then_the_task() {
    let mut t = task();
    t.setup(SPACE);
    t.resume(TaskReply::Task(Some(row(ID, 0, None, None))));
    t.resume(TaskReply::Inner(Ok(())));
    let step = t.resume(TaskReply::Task(Some(row(ID, 0, None, Some(9)))));
    assert!(matches!(step.next, TaskRequest::FindMessage { id: 9 }));
    let step = t.resume(TaskReply::Message(Some(message(9))));
    assert!(matches!(step.next, TaskRequest::Done));
    assert_eq!(events(&step), vec![("message", 9, 0), ("task", ID, 0)]);
}

#[test]
fn phase_publishes_file_message_and_task_in_this_order() {
    let mut t = task();
    t.setup(SPACE);
    t.resume(TaskReply::Task(Some(row(ID, 0, None, None))));
    t.resume(TaskReply::Inner(Ok(())));
    let step = t.resume(TaskReply::Task(Some(row(ID, 0, Some(5), Some(9)))));
    assert!(matches!(step.next, TaskRequest::FindFile { id: 5 }));
    let step = t.resume(TaskReply::File(Some(file(5, 3))));
    assert!(matches!(step.next, TaskRequest::FindMessage { id: 9 }));
    assert_eq!(events(&step), vec![("file", 5, 3)]);
    let step = t.resume(TaskReply::Message(Some(message(9))));
    assert!(matches!(step.next, TaskRequest::Done));
    assert_eq!(events(&step), vec![("message", 9, 0), ("task", ID, 0)]);
}

#[test]
fn setup_fails_where_the_row_is_not_created() {
    for reply in [TaskReply::StoreFailed, TaskReply::Task(None)] {
        let mut t = task();
        t.setup(SPACE);
        let step = t.resume(reply);
        assert_eq!(error_of(&step), TaskError::Store);
        assert_eq!(t.lifecycle, Lifecycle::SetupInProgress);
        assert_eq!(error_of(&t.run()), TaskError::OutOfOrder);
        assert_eq!(error_of(&t.finish(TaskStatus::Failed)), TaskError::OutOfOrder);
    }
}

#[test]
fn setup_fails_with_the_error_of_the_kind() {
    let mut t = task();
    t.setup(SPACE);
    t.resume(TaskReply::Task(Some(row(ID, 0, None, None))));
    assert_eq!(t.setup_error, None);
    let step = t.resume(TaskReply::Inner(Err(TaskError::LearnFileNotFound)));
    assert_eq!(error_of(&step), TaskError::LearnFileNotFound);
    assert!(step.emit.is_empty());
    assert_eq!(t.lifecycle, Lifecycle::SetupInProgress);
    assert_eq!(t.setup_error, Some(TaskError::LearnFileNotFound));
    assert_eq!(error_of(&t.run()), TaskError::OutOfOrder);
    assert_eq!(t.setup_error, Some(TaskError::LearnFileNotFound));
}

#[test]
fn phase_fails_where_a_row_is_not_found() {
    let mut t = task();
    t.setup(SPACE);
    t.resume(TaskReply::Task(Some(row(ID, 0, None, None))));
    t.resume(TaskReply::Inner(Ok(())));
    assert_eq!(error_of(&t.resume(TaskReply::Task(None))), TaskError::TaskNotFound);

    let mut t = task();
    t.setup(SPACE);
    t.resume(TaskReply::Task(Some(row(ID, 0, None, None))));
    t.resume(TaskReply::Inner(Ok(())));
    t.resume(TaskReply::Task(Some(row(ID, 0, Some(5), Some(9)))));
    let step = t.resume(TaskReply::File(None));
    assert_eq!(error_of(&step), TaskError::FileNotFound);
    assert!(step.emit.is_empty());

    let mut t = task();
    t.setup(SPACE);
    t.resume(TaskReply::Task(Some(row(ID, 0, None, None))));
    t.resume(TaskReply::Inner(Ok(())));
    t.resume(TaskReply::Task(Some(row(ID, 0, Some(5), Some(9)))));
    let step = t.resume(TaskReply::File(Some(file(5, 0))));
    assert_eq!(events(&step), vec![("file", 5, 0)]);
    let step = t.resume(TaskReply::StoreFailed);
    assert_eq!(error_of(&step), TaskError::MessageNotFound);
    assert!(step.emit.is_empty());
    assert_eq!(t.lifecycle, Lifecycle::SetupInProgress);
}

#[test]
fn phases_cannot_be_entered_out_of_order() {
    let mut t = task();
    assert_eq!(error_of(&t.run()), TaskError::OutOfOrder);
    assert_eq!(error_of(&t.finish(TaskStatus::Succeeded)), TaskError::OutOfOrder);
    assert_eq!(error_of(&t.resume(TaskReply::Inner(Ok(())))), TaskError::OutOfOrder);
    assert_eq!(t.lifecycle, Lifecycle::Created);

    let mut t = set_up();
    assert_eq!(error_of(&t.setup(SPACE)), TaskError::OutOfOrder);
    assert_eq!(error_of(&t.finish(TaskStatus::Succeeded)), TaskError::OutOfOrder);
    assert_eq!(t.lifecycle, Lifecycle::Queued);

    assert!(matches!(t.run().next, TaskRequest::Inner(Phase::Run)));
    assert_eq!(error_of(&t.run()), TaskError::OutOfOrder);
    assert_eq!(error_of(&t.finish(TaskStatus::Succeeded)), TaskError::OutOfOrder);
    assert_eq!(error_of(&t.setup(SPACE)), TaskError::OutOfOrder);
    assert_eq!(t.lifecycle, Lifecycle::Running);
}

#[test]
fn run_reads_the_rows_back_and_publishes_them() {
    let mut t = set_up();
    let step = t.run();
    assert!(matches!(step.next, TaskRequest::Inner(Phase::Run)));
    assert_eq!(t.lifecycle, Lifecycle::Running);
    let step = t.resume(TaskReply::Inner(Ok(())));
    assert!(matches!(step.next, TaskRequest::FindTask { id: ID }));
    t.resume(TaskReply::Task(Some(row(ID, 0, Some(5), None))));
    let step = t.resume(TaskReply::File(Some(file(5, 512))));
    assert!(matches!(step.next, TaskRequest::Done));
    assert_eq!(events(&step), vec![("file", 5, 512), ("task", ID, 0)]);
    assert_eq!(t.lifecycle, Lifecycle::Running);
}

#[test]
fn run_that_fails_publishes_nothing_and_can_be_finished() {
    let mut t = set_up();
    t.run();
    let step = t.resume(TaskReply::Inner(Err(TaskError::FileSizeUnknown)));
    assert_eq!(error_of(&step), TaskError::FileSizeUnknown);
    assert!(step.emit.is_empty());
    assert_eq!(t.lifecycle, Lifecycle::Running);
    assert_eq!(t.setup_error, None);
    let step = t.finish(TaskStatus::Failed);
    assert!(matches!(step.next, TaskRequest::Inner(Phase::Finish)));
}

#[test]
fn finish_writes_the_status_once_and_publishes_it() {
    let mut t = set_up();
    t.run();
    t.resume(TaskReply::Inner(Ok(())));
    t.resume(TaskReply::Task(Some(row(ID, 0, None, None))));
    let step = t.finish(TaskStatus::Succeeded);
    assert!(matches!(step.next, TaskRequest::Inner(Phase::Finish)));
    assert_eq!(t.outcome, TaskStatus::Succeeded);
    let step = t.resume(TaskReply::Inner(Ok(())));
    assert!(matches!(step.next, TaskRequest::WriteStatus { id: ID, status: 2 }));
    t.resume(TaskReply::Task(Some(row(ID, 2, Some(5), None))));
    let step = t.resume(TaskReply::File(Some(file(5, 512))));
    assert!(matches!(step.next, TaskRequest::Done));
    assert_eq!(events(&step), vec![("file", 5, 512), ("task", ID, 2)]);
    assert_eq!(t.lifecycle, Lifecycle::Finished(TaskStatus::Succeeded));
    assert_eq!(error_of(&t.finish(TaskStatus::Succeeded)), TaskError::OutOfOrder);
    assert_eq!(error_of(&t.run()), TaskError::OutOfOrder);
    assert_eq!(error_of(&t.setup(SPACE)), TaskError::OutOfOrder);
}

#[test]
fn finish_after_a_failed_run_writes_failed() {
    let mut t = set_up();
    t.run();
    t.resume(TaskReply::Inner(Err(TaskError::LearnRefused)));
    t.finish(TaskStatus::Failed);
    let step = t.resume(TaskReply::Inner(Ok(())));
    assert!(matches!(step.next, TaskRequest::WriteStatus { id: ID, status: 1 }));
    let step = t.resume(TaskReply::Task(Some(row(ID, 1, None, None))));
    assert_eq!(events(&step), vec![("task", ID, 1)]);
    assert_eq!(t.lifecycle, Lifecycle::Finished(TaskStatus::Failed));
}

#[test]
fn finish_that_fails_writes_no_status_and_ends_the_instance() {
    let mut t = set_up();
    t.run();
    t.resume(TaskReply::Inner(Ok(())));
    t.resume(TaskReply::Task(Some(row(ID, 0, None, None))));
    t.finish(TaskStatus::Succeeded);
    let step = t.resume(TaskReply::Inner(Err(TaskError::Store)));
    assert_eq!(error_of(&step), TaskError::Store);
    assert!(step.emit.is_empty());
    assert_eq!(t.lifecycle, Lifecycle::Finished(TaskStatus::Succeeded));
    assert_eq!(error_of(&t.finish(TaskStatus::Succeeded)), TaskError::OutOfOrder);
}

#[test]
fn finish_fails_where_the_status_is_not_written() {
    let mut t = set_up();
    t.run();
    t.resume(TaskReply::Inner(Ok(())));
    t.resume(TaskReply::Task(Some(row(ID, 0, None, None))));
    t.finish(TaskStatus::Succeeded);
    t.resume(TaskReply::Inner(Ok(())));
    let step = t.resume(TaskReply::StoreFailed);
    assert_eq!(error_of(&step), TaskError::StatusNotWritten);
    assert_eq!(t.lifecycle, Lifecycle::Finished(TaskStatus::Succeeded));
}

#[test]
fn reply_of_the_wrong_kind_fails_the_phase() {
    let mut t = task();
    t.setup(SPACE);
    t.resume(TaskReply::Task(Some(row(ID, 0, None, None))));
    let step = t.resume(TaskReply::File(Some(file(5, 0))));
    assert_eq!(error_of(&step), TaskError::OutOfOrder);
}

#[test]
fn error_texts() {
    assert_eq!(TaskError::TaskNotFound.message(), "Failed to find task");
    assert_eq!(TaskError::FileNotFound.message(), "Failed to find file associated with task");
    assert_eq!(
        TaskError::MessageNotFound.message(),
        "Failed to find message associated with task"
    );
    assert_eq!(TaskError::MissingData.message(), "Failed to get upload task data");
    assert_eq!(TaskError::LearnFileNotFound.message(), "Failed to find file");
    assert_eq!(TaskError::LearnNotSent.message(), "Failed to send learn request");
    assert_eq!(TaskError::LearnRefused.message(), "Failed to learn file");
    assert_eq!(
        TaskError::HistoryNotSerialized.message(),
        "Failed to serialize chat history to json"
    );
    assert_eq!(TaskError::AskNotSent.message(), "Failed to send ask request");
    assert_eq!(TaskError::AskNotParsed.message(), "Failed to parse ask response");
    for e in [
        TaskError::OutOfOrder,
        TaskError::Store,
        TaskError::StatusNotWritten,
        TaskError::FileSizeUnknown,
        TaskError::FileTooLarge,
        TaskError::FileSizeNotRecorded,
        TaskError::IndexDirNotCreated,
    ] {
        assert!(!e.message().is_empty());
    }
}
