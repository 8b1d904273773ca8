use std::collections::HashMap;

use server::api::CoreEvent;
use server::records::{FileRecord, MessageRecord, TaskRecord};
use server::status::TaskStatus;
use server::tasks::dispatcher::Dispatcher;
use server::tasks::reply::{AskResponse, ReplyReply, ReplyRequest, ReplyTask, ReplyTaskInfo};
use server::tasks::upload_file::{FileUploadTask, FileUploadTaskInfo, UploadReply, UploadRequest};
use server::tasks::{
    DTask, Lifecycle, Phase, Step, Task, TaskError, TaskExec, TaskReply, TaskRequest,
};

const SPACE: u128 = 0xa1a2a3a4b1b2c1c2d1d2d3d4d5d6d7d8;

/// A store, an event bus, a clock, a disk and an answer service, all in
/// memory.
struct World {
    tasks: HashMap<u128, TaskRecord>,
    files: HashMap<u128, FileRecord>,
    messages: HashMap<u128, MessageRecord>,
    bus: Vec<CoreEvent>,
    now: u64,
    /// The size of the uploaded file at a time.
    size_at: fn(u64) -> u64,
    answer: Option<AskResponse>,
    asked: Vec<(String, String, String)>,
}

impl World {
    fn new() -> World {
        World {
            tasks: HashMap::new(),
            files: HashMap::new(),
            messages: HashMap::new(),
            bus: Vec::new(),
            now: 0,
            size_at: |_| 0,
            answer: None,
            asked: Vec::new(),
        }
    }

    fn statuses_on_the_bus(&self, id: u128) -> Vec<i32> {
        let mut seen = Vec::new();
        for e in &self.bus {
            if let CoreEvent::TaskUpdate { tasks } = e {
                for t in tasks {
                    if t.id == id {
                        seen.push(t.status);
                    }
                }
            }
        }
        seen
    }

    fn upload(&mut self, task: u128, request: UploadRequest) -> UploadReply {
        match request {
            UploadRequest::CreateFile(new) => {
                let row = FileRecord {
                    id: new.id,
                    path: new.path,
                    name: new.name,
                    extension: new.extension,
                    supported: new.supported,
                    learned: false,
                    size: 0,
                    space_id: new.space_id,
                };
                self.files.insert(row.id, row.clone());
                self.tasks.get_mut(&task).expect("the task has a row").file_id = Some(row.id);
                UploadReply::Created(row)
            }
            UploadRequest::Now => UploadReply::Now(self.now),
            UploadRequest::Poll { wait_ms, .. } => {
                self.now += wait_ms;
                UploadReply::Observed { now: self.now, size: Some((self.size_at)(self.now)) }
            }
            UploadRequest::RecordSize { file_id, size } => {
                self.files.get_mut(&file_id).expect("the file has a row").size = size;
                UploadReply::Stored
            }
            UploadRequest::Invalidate { key } => {
                self.bus.push(CoreEvent::invalidate(&key));
                UploadReply::Stored
            }
        }
    }

    fn reply(&mut self, task: u128, request: ReplyRequest) -> ReplyReply {
        match request {
            ReplyRequest::AttachTask { message_id, task_id } => {
                assert_eq!(task_id, task);
                self.tasks.get_mut(&task).expect("the task has a row").message_id =
                    Some(message_id);
                ReplyReply::Stored
            }
            ReplyRequest::CreateResponse(new) => {
                let row = MessageRecord {
                    id: new.id,
                    text: new.text,
                    is_user_message: new.is_user_message,
                    response_status: new.response_status,
                    date_created: self.now as i64,
                    space_id: new.space_id,
                    response_text: None,
                };
                self.messages.insert(row.id, row.clone());
                ReplyReply::Created(row)
            }
            ReplyRequest::Context { space_id, response_status, limit } => {
                let mut rows: Vec<MessageRecord> = self
                    .messages
                    .values()
                    .filter(|m| {
                        m.is_user_message
                            && m.response_status == response_status
                            && m.space_id == space_id
                    })
                    .cloned()
                    .collect();
                rows.sort_by(|a, b| b.date_created.cmp(&a.date_created));
                rows.truncate(limit as usize);
                ReplyReply::Context { spaces_dir: "/spaces".to_string(), newest_first: rows }
            }
            ReplyRequest::PostAsk(request) => {
                self.asked.push((request.vector_db_path, request.question, request.chat_history));
                match self.answer.take() {
                    Some(a) => ReplyReply::Answer(a),
                    None => ReplyReply::NotSent("connection refused".to_string()),
                }
            }
            ReplyRequest::UpdateMessage(change) => {
                let row = self.messages.get_mut(&change.id).expect("the message has a row");
                if let Some(text) = change.text {
                    row.text = text;
                }
                row.response_status = change.response_status;
                ReplyReply::Stored
            }
        }
    }

    /// Takes one phase of a task to its end: performs what the wrapper
    /// asks, and lets `inner` run the phase of the task kind.
    fn phase<T: TaskExec>(
        &mut self,
        task: &mut Task<T>,
        first: server::tasks::TaskStep,
        inner: &mut dyn FnMut(&mut World, &mut Task<T>, Phase) -> Result<(), TaskError>,
    ) -> Result<(), TaskError> {
        let mut step = first;
        loop {
            self.bus.append(&mut step.emit);
            let reply = match step.next {
                TaskRequest::Done => return Ok(()),
                TaskRequest::Failed(e) => return Err(e),
                TaskRequest::CreateTask(new) => {
                    let row = TaskRecord {
                        id: new.id,
                        task_type: new.task_type,
                        hash: new.hash,
                        status: new.status,
                        space_id: new.space_id,
                        file_id: None,
                        message_id: None,
                    };
                    self.tasks.insert(row.id, row.clone());
                    TaskReply::Task(Some(row))
                }
                TaskRequest::Inner(phase) => TaskReply::Inner(inner(self, task, phase)),
                TaskRequest::FindTask { id } => TaskReply::Task(self.tasks.get(&id).cloned()),
                TaskRequest::WriteStatus { id, status } => match self.tasks.get_mut(&id) {
                    Some(row) => {
                        row.status = status;
                        TaskReply::Task(Some(row.clone()))
                    }
                    None => TaskReply::StoreFailed,
                },
                TaskRequest::FindFile { id } => TaskReply::File(self.files.get(&id).cloned()),
                TaskRequest::FindMessage { id } => {
                    TaskReply::Message(self.messages.get(&id).cloned())
                }
            };
            step = task.resume(reply);
        }
    }
}

fn upload_phase(
    world: &mut World,
    task: &mut Task<FileUploadTask>,
    phase: Phase,
) -> Result<(), TaskError> {
    let id = task.id();
    let outcome = task.outcome;
    let mut reply = None;
    loop {
        let step = match phase {
            Phase::Setup => task.task_with_state.setup(SPACE, id, &mut task.task_info, reply),
            Phase::Run => task.task_with_state.run(SPACE, id, &mut task.task_info, reply),
            Phase::Finish => {
                task.task_with_state.finish(SPACE, id, &mut task.task_info, outcome, reply)
            }
        };
        match step {
            Step::Done => return Ok(()),
            Step::Failed(e) => return Err(e),
            Step::Ask(request) => reply = Some(world.upload(id, request)),
        }
    }
}

fn reply_phase(
    world: &mut World,
    task: &mut Task<ReplyTask>,
    phase: Phase,
) -> Result<(), TaskError> {
    let id = task.id();
    let outcome = task.outcome;
    let mut reply = None;
    loop {
        let step = match phase {
            Phase::Setup => task.task_with_state.setup(SPACE, id, &mut task.task_info, reply),
            Phase::Run => task.task_with_state.run(SPACE, id, &mut task.task_info, reply),
            Phase::Finish => {
                task.task_with_state.finish(SPACE, id, &mut task.task_info, outcome, reply)
            }
        };
        match step {
            Step::Done => return Ok(()),
            Step::Failed(e) => return Err(e),
            Step::Ask(request) => reply = Some(world.reply(id, request)),
        }
    }
}

/// Sets a task up and hands it to the dispatcher, as a caller does; then
/// runs and finishes it, as the worker of the dispatcher does.
fn dispatch_and_run<T: TaskExec>(
    world: &mut World,
    dispatcher: &mut Dispatcher,
    task: &mut Task<T>,
    inner: &mut dyn FnMut(&mut World, &mut Task<T>, Phase) -> Result<(), TaskError>,
) -> Result<TaskStatus, TaskError> {
    let first = task.setup(SPACE);
    let set_up = world.phase(task, first, inner);
    let admission = dispatcher.dispatch(task)?;
    set_up.expect("a task that is taken was set up");
    assert!(admission.start);
    let first = task.run();
    let ran = world.phase(task, first, inner);
    let end = dispatcher
        .run_completed(admission.ticket, ran.is_ok())
        .expect("the instance was running");
    assert_eq!(dispatcher.running(), 0);
    let first = task.finish(end.status);
    let _ = world.phase(task, first, inner);
    assert!(dispatcher.finish_completed(admission.ticket));
    Ok(end.status)
}

#[test]
fn scenario_upload_of_notes_pdf() {
    let mut world = World::new();
    world.size_at = |t| if t < 300 { 0 } else { 512 };
    let mut dispatcher = Dispatcher::new();
    let mut task = Task::new(FileUploadTaskInfo { path: "notes.pdf".to_string() });
    let status = dispatch_and_run(&mut world, &mut dispatcher, &mut task, &mut upload_phase);
    assert_eq!(status, Ok(TaskStatus::Succeeded));
    assert_eq!(task.lifecycle, Lifecycle::Finished(TaskStatus::Succeeded));

    // The size changed at 300 ms; the run ended at the first look more than
    // a second later.
    assert_eq!(world.now, 1400);
    assert!(world.now - 300 > 1000);

    let file = world.files.values().next().expect("the file has a row");
    assert_eq!(world.files.len(), 1);
    assert_eq!(file.size, 512);
    assert_eq!(file.name, "notes");
    assert_eq!(file.extension, "pdf");
    assert!(file.supported);

    let id = task.id();
    assert_eq!(world.tasks[&id].status, 2);
    assert_eq!(world.tasks[&id].file_id, Some(file.id));
    assert_eq!(world.tasks[&id].task_type, "file_upload");
    assert_eq!(world.tasks[&id].hash, task.hash().to_string());
    // Setup and run publish the pending task, finish the succeeded one.
    assert_eq!(world.statuses_on_the_bus(id), vec![0, 0, 2]);
    let invalidated = world
        .bus
        .iter()
        .filter(|e| matches!(e, CoreEvent::InvalidateOperation(i) if i.key == "files.list"))
        .count();
    assert_eq!(invalidated, 1);
    let last_file = world
        .bus
        .iter()
        .filter_map(|e| match e {
            CoreEvent::FileUpdate { files } => Some(files[0].size),
            _ => None,
        })
        .last();
    assert_eq!(last_file, Some(512));
    assert_eq!(dispatcher.list(), vec![id]);
    assert_eq!(dispatcher.running(), 0);
}

#[test]
fn scenario_upload_of_a_file_too_large_fails_and_is_finished() {
    let mut world = World::new();
    world.size_at = |_| 1 << 40;
    let mut dispatcher = Dispatcher::new();
    let mut task = Task::new(FileUploadTaskInfo { path: "huge.bin".to_string() });
    let status = dispatch_and_run(&mut world, &mut dispatcher, &mut task, &mut upload_phase);
    assert_eq!(status, Ok(TaskStatus::Failed));
    assert_eq!(task.lifecycle, Lifecycle::Finished(TaskStatus::Failed));
    let id = task.id();
    assert_eq!(world.tasks[&id].status, 1);
    // The run that failed published nothing.
    assert_eq!(world.statuses_on_the_bus(id), vec![0, 1]);
    assert_eq!(world.files.values().next().expect("the file has a row").size, 0);
}

fn question(world: &mut World, id: u128, text: &str) {
    world.messages.insert(
        id,
        MessageRecord {
            id,
            text: text.to_string(),
            is_user_message: true,
            response_status: 0,
            date_created: world.now as i64,
            space_id: SPACE,
            response_text: None,
        },
    );
}

#[test]
fn scenario_reply_to_a_question() {
    let mut world = World::new();
    question(&mut world, 50, "What is Jensen's inequality?");
    world.answer =
        Some(AskResponse { success: true, response_error: None, result: Some("...".to_string()) });
    let mut dispatcher = Dispatcher::new();
    let mut task = Task::new(ReplyTaskInfo {
        message_id: 50,
        message_text: "What is Jensen's inequality?".to_string(),
    });
    let status = dispatch_and_run(&mut world, &mut dispatcher, &mut task, &mut reply_phase);
    assert_eq!(status, Ok(TaskStatus::Succeeded));

    assert_eq!(world.messages.len(), 2);
    let user = &world.messages[&50];
    assert_eq!(user.response_status, 2);
    assert_eq!(user.text, "What is Jensen's inequality?");
    let response = world.messages.values().find(|m| !m.is_user_message).expect("a response");
    assert_eq!(response.response_status, 2);
    assert_eq!(response.text, "...");

    assert_eq!(
        world.asked,
        vec![(
            "/spaces/a1a2a3a4-b1b2-c1c2-d1d2-d3d4d5d6d7d8/vector_db".to_string(),
            "What is Jensen's inequality?".to_string(),
            "[]".to_string()
        )]
    );
    let id = task.id();
    assert_eq!(world.tasks[&id].message_id, Some(50));
    assert_eq!(world.statuses_on_the_bus(id), vec![0, 0, 2]);
    // The message is published with every phase, last of all as completed.
    let seen: Vec<i32> = world
        .bus
        .iter()
        .filter_map(|e| match e {
            CoreEvent::MessageUpdate { messages } => Some(messages[0].response_status),
            _ => None,
        })
        .collect();
    assert_eq!(seen, vec![0, 0, 2]);
}

#[test]
fn scenario_reply_with_an_error_text_is_shown_to_the_user() {
    let mut world = World::new();
    question(&mut world, 50, "q");
    world.answer = Some(AskResponse {
        success: false,
        response_error: Some("no index".to_string()),
        result: None,
    });
    let mut dispatcher = Dispatcher::new();
    let mut task =
        Task::new(ReplyTaskInfo { message_id: 50, message_text: "q".to_string() });
    let status = dispatch_and_run(&mut world, &mut dispatcher, &mut task, &mut reply_phase);
    assert_eq!(status, Ok(TaskStatus::Succeeded));
    let response = world.messages.values().find(|m| !m.is_user_message).expect("a response");
    assert_eq!(response.text, "no index");
    assert_eq!(response.response_status, 3);
    assert_eq!(world.messages[&50].response_status, 3);
}

#[test]
fn scenario_reply_where_the_service_is_down() {
    let mut world = World::new();
    question(&mut world, 50, "q");
    let mut dispatcher = Dispatcher::new();
    let mut task =
        Task::new(ReplyTaskInfo { message_id: 50, message_text: "q".to_string() });
    let status = dispatch_and_run(&mut world, &mut dispatcher, &mut task, &mut reply_phase);
    // The run failed, and the task is recorded as failed.
    assert_eq!(status, Ok(TaskStatus::Failed));
    assert_eq!(world.tasks[&task.id()].status, 1);
    // The response is there, errored, and shows the text of the error.
    let response = world.messages.values().find(|m| !m.is_user_message).expect("a response");
    assert_eq!(response.response_status, 3);
    assert_eq!(response.text, "connection refused");
    assert_eq!(world.messages[&50].response_status, 3);
}

#[test]
fn scenario_reply_whose_run_fails_before_anything_is_captured() {
    let mut world = World::new();
    question(&mut world, 50, "q");
    let mut dispatcher = Dispatcher::new();
    let mut task =
        Task::new(ReplyTaskInfo { message_id: 50, message_text: "q".to_string() });
    // The store fails as soon as the run asks for the history.
    let mut failing = |w: &mut World, t: &mut Task<ReplyTask>, phase: Phase| match phase {
        Phase::Run => Err(TaskError::Store),
        other => reply_phase(w, t, other),
    };
    let status = dispatch_and_run(&mut world, &mut dispatcher, &mut task, &mut failing);
    assert_eq!(status, Ok(TaskStatus::Failed));
    assert_eq!(world.tasks[&task.id()].status, 1);
    let response = world.messages.values().find(|m| !m.is_user_message).expect("a response");
    assert_eq!(response.response_status, 3);
    assert_eq!(response.text, "Failed to generate response");
    assert_eq!(world.messages[&50].response_status, 3);
}

#[test]
fn scenario_reply_with_the_history_of_the_space() {
    let mut world = World::new();
    for (id, at, text, answer) in
        [(11u128, 1000i64, "t1", "a1"), (13, 3000, "t3", "a3"), (12, 2000, "t2", "a2")]
    {
        world.messages.insert(
            id,
            MessageRecord {
                id,
                text: text.to_string(),
                is_user_message: true,
                response_status: 2,
                date_created: at,
                space_id: SPACE,
                response_text: Some(answer.to_string()),
            },
        );
    }
    // A question that is not answered yet, and one of another space, are
    // no history.
    question(&mut world, 14, "pending");
    world.messages.insert(
        15,
        MessageRecord {
            id: 15,
            text: "elsewhere".to_string(),
            is_user_message: true,
            response_status: 2,
            date_created: 2500,
            space_id: 1,
            response_text: None,
        },
    );
    world.now = 4000;
    question(&mut world, 50, "and now?");
    world.answer =
        Some(AskResponse { success: true, response_error: None, result: Some("x".to_string()) });
    let mut dispatcher = Dispatcher::new();
    let mut task =
        Task::new(ReplyTaskInfo { message_id: 50, message_text: "and now?".to_string() });
    dispatch_and_run(&mut world, &mut dispatcher, &mut task, &mut reply_phase)
        .expect("the task is dispatched");
    assert_eq!(world.asked.len(), 1);
    assert_eq!(
        world.asked[0].2,
        "[{\"HUMAN\":\"t1\",\"AI\":\"a1\"},{\"HUMAN\":\"t2\",\"AI\":\"a2\"},{\"HUMAN\":\"t3\",\"AI\":\"a3\"}]"
    );
}

#[test]
fn scenario_setup_that_fails_is_not_dispatched() {
    let mut world = World::new();
    let mut dispatcher = Dispatcher::new();
    let mut task =
        Task::new(ReplyTaskInfo { message_id: 50, message_text: "q".to_string() });
    let mut broken = |_: &mut World, _: &mut Task<ReplyTask>, _: Phase| Err(TaskError::Store);
    let status = dispatch_and_run(&mut world, &mut dispatcher, &mut task, &mut broken);
    assert_eq!(status, Err(TaskError::Store));
    assert_eq!(task.lifecycle, Lifecycle::SetupInProgress);
    assert!(dispatcher.list().is_empty());
    // The dispatcher hands back the error of the setup, and takes nothing.
    assert_eq!(dispatcher.dispatch(&task).err(), Some(TaskError::Store));
    assert!(dispatcher.list().is_empty());
    assert_eq!(dispatcher.running(), 0);
    assert!(world.statuses_on_the_bus(task.id()).is_empty());
}

#[test]
fn scenario_every_task_is_finished_once_behind_a_saturated_gate() {
    let mut world = World::new();
    world.size_at = |_| 7;
    let mut dispatcher = Dispatcher::with_permits(1);
    let mut tasks: Vec<Task<FileUploadTask>> = (0..4)
        .map(|i| Task::new(FileUploadTaskInfo { path: format!("f{}.txt", i) }))
        .collect();
    let mut tickets = Vec::new();
    let mut ready = Vec::new();
    for task in tasks.iter_mut() {
        let first = task.setup(SPACE);
        world.phase(task, first, &mut upload_phase).expect("the setup succeeds");
        let a = dispatcher.dispatch(task).expect("the task is taken");
        if a.start {
            ready.push(a.ticket);
        }
        tickets.push(a.ticket);
    }
    assert_eq!(ready, vec![0]);
    assert_eq!(dispatcher.waiting(), 3);
    let mut finished = vec![0; tasks.len()];
    while let Some(ticket) = ready.pop() {
        let place = tickets.iter().position(|t| *t == ticket).expect("a known ticket");
        let task = &mut tasks[place];
        let first = task.run();
        let ran = world.phase(task, first, &mut upload_phase);
        let end = dispatcher.run_completed(ticket, ran.is_ok()).expect("it was running");
        if let Some(next) = end.start {
            ready.push(next);
        }
        let first = task.finish(end.status);
        world.phase(task, first, &mut upload_phase).expect("the finish succeeds");
        finished[place] += 1;
        assert!(dispatcher.finish_completed(ticket));
        assert!(dispatcher.running() <= 1);
    }
    assert_eq!(finished, vec![1, 1, 1, 1]);
    for task in &tasks {
        assert_eq!(task.lifecycle, Lifecycle::Finished(TaskStatus::Succeeded));
        assert_eq!(world.statuses_on_the_bus(task.id()).last(), Some(&2));
    }
    assert_eq!(dispatcher.waiting(), 0);
    assert_eq!(dispatcher.running(), 0);
}
