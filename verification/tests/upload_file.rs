use server::records::FileRecord;
use server::status::TaskStatus;
use server::tasks::upload_file::{
    is_supported, new_file, supported_extensions, FileUploadTask, FileUploadTaskInfo,
    FileUploadTaskState, UploadReply, UploadRequest, Verdict, Watch, MAX_RECORDED_SIZE,
    POLL_INTERVAL_MS, STABILITY_WINDOW_MS,
};
use server::tasks::{DTask, IntoTask, Lifecycle, Step, TaskError, TaskExec, TaskState};

const SPACE: u128 = 11;
const TASK: u128 = 22;
const FILE: u128 = 33;

fn state(path: &str) -> TaskState<FileUploadTask> {
    TaskState { info: FileUploadTaskInfo { path: path.to_string() }, data: None, cursor: 0 }
}

fn record(id: u128, path: &str) -> FileRecord {
    FileRecord {
        id,
        path: path.to_string(),
        name: String::new(),
        extension: String::new(),
        supported: true,
        learned: false,
        size: 0,
        space_id: SPACE,
    }
}

fn set_up(path: &str) -> TaskState<FileUploadTask> {
    let kind = FileUploadTask::new();
    let mut st = state(path);
    let first = kind.setup_with_id(SPACE, TASK, &mut st, None, FILE);
    assert!(matches!(first, Step::Ask(UploadRequest::CreateFile(_))));
    let second =
        kind.setup_with_id(SPACE, TASK, &mut st, Some(UploadReply::Created(record(FILE, path))), 0);
    assert!(matches!(second, Step::Done));
    st
}

fn failed(step: Step<UploadRequest>) -> TaskError {
    match step {
        Step::Failed(e) => e,
        _ => panic!("the step did not fail"),
    }
}

#[test]
fn upload_constants() {
    assert_eq!(POLL_INTERVAL_MS, 100);
    assert_eq!(STABILITY_WINDOW_MS, 1000);
    assert_eq!(MAX_RECORDED_SIZE, i32::MAX as u64);
}

#[test]
fn upload_supported_extensions_are_the_twelve() {
    assert_eq!(
        supported_extensions(),
        vec!["csv", "doc", "docx", "enex", "epub", "html", "md", "odt", "pdf", "ppt", "pptx", "txt"]
    );
    for ext in supported_extensions() {
        assert!(is_supported(ext));
    }
    assert!(!is_supported("PDF"));
    assert!(!is_supported("png"));
    assert!(!is_supported(""));
    assert!(!is_supported("pd"));
}

#[test]
fn upload_file_row_for_a_plain_name() {
    let row = new_file(FILE, "notes.pdf", SPACE, TASK);
    assert_eq!(row.id, FILE);
    assert_eq!(row.id_str, "00000000-0000-0000-0000-000000000021");
    assert_eq!(row.path, "notes.pdf");
    assert_eq!(row.name, "notes");
    assert_eq!(row.extension, "pdf");
    assert_eq!(row.space_id, SPACE);
    assert_eq!(row.task_id, TASK);
    assert!(row.supported);
}

#[test]
fn upload_file_row_for_a_nested_path_with_two_dots() {
    let row = new_file(FILE, "papers/2023/archive.tar.gz", SPACE, TASK);
    assert_eq!(row.path, "papers/2023/archive.tar.gz");
    assert_eq!(row.name, "archive");
    assert_eq!(row.extension, "gz");
    assert!(!row.supported);
}

#[test]
fn upload_file_row_for_a_name_without_a_dot() {
    let row = new_file(FILE, "dir/README", SPACE, TASK);
    assert_eq!(row.name, "README");
    assert_eq!(row.extension, "README");
    assert!(!row.supported);
}

#[test]
fn upload_file_row_for_a_hidden_file_and_for_an_empty_path() {
    let row = new_file(FILE, ".md", SPACE, TASK);
    assert_eq!(row.name, "");
    assert_eq!(row.extension, "md");
    assert!(row.supported);
    let row = new_file(FILE, "", SPACE, TASK);
    assert_eq!(row.name, "");
    assert_eq!(row.extension, "");
    assert!(!row.supported);
}

#[test]
fn upload_setup_creates_the_file_and_leaves_the_state() {
    let kind = FileUploadTask::new();
    let mut st = state("notes.pdf");
    match kind.setup_with_id(SPACE, TASK, &mut st, None, FILE) {
        Step::Ask(UploadRequest::CreateFile(row)) => {
            assert_eq!(row.id, FILE);
            assert_eq!(row.name, "notes");
            assert_eq!(row.extension, "pdf");
            assert_eq!(row.task_id, TASK);
            assert_eq!(row.space_id, SPACE);
            assert!(row.supported);
        }
        _ => panic!("setup did not ask for the file"),
    }
    assert_eq!(st.cursor, 1);
    assert!(st.data.is_none());
    let step = kind.setup_with_id(
        SPACE,
        TASK,
        &mut st,
        Some(UploadReply::Created(record(FILE, "notes.pdf"))),
        0,
    );
    assert!(matches!(step, Step::Done));
    let data = st.data.expect("setup left no state");
    assert_eq!(data.file_id, FILE);
    assert_eq!(data.last_size, 0);
}

#[test]
fn upload_setup_under_a_fresh_identity() {
    let kind = FileUploadTask::new();
    let mut a = state("notes.pdf");
    let mut b = state("notes.pdf");
    let id_a = match kind.setup(SPACE, TASK, &mut a, None) {
        Step::Ask(UploadRequest::CreateFile(row)) => row.id,
        _ => panic!("setup did not ask for the file"),
    };
    let id_b = match kind.setup(SPACE, TASK, &mut b, None) {
        Step::Ask(UploadRequest::CreateFile(row)) => row.id,
        _ => panic!("setup did not ask for the file"),
    };
    assert_ne!(id_a, id_b);
}

#[test]
fn upload_setup_fails_with_the_store() {
    let kind = FileUploadTask::new();
    let mut st = state("notes.pdf");
    kind.setup_with_id(SPACE, TASK, &mut st, None, FILE);
    let step = kind.setup_with_id(SPACE, TASK, &mut st, Some(UploadReply::StoreFailed), 0);
    assert_eq!(failed(step), TaskError::Store);
    assert!(st.data.is_none());
}

#[test]
fn upload_setup_refuses_replies_out_of_order() {
    let kind = FileUploadTask::new();
    let mut st = state("notes.pdf");
    let step = kind.setup_with_id(
        SPACE,
        TASK,
        &mut st,
        Some(UploadReply::Created(record(FILE, "notes.pdf"))),
        0,
    );
    assert_eq!(failed(step), TaskError::OutOfOrder);
    let step = kind.setup_with_id(SPACE, TASK, &mut st, Some(UploadReply::Now(5)), 0);
    assert_eq!(failed(step), TaskError::OutOfOrder);
}

#[test]
fn upload_look_waits_within_the_window() {
    let w = Watch { last_size: 512, stable_since: 300 };
    let (next, verdict) = FileUploadTask::look(w, 1300, Some(512));
    assert!(matches!(verdict, Verdict::Wait));
    assert_eq!(next.last_size, 512);
    assert_eq!(next.stable_since, 300);
}

#[test]
fn upload_look_completes_after_the_window() {
    let w = Watch { last_size: 512, stable_since: 300 };
    let (next, verdict) = FileUploadTask::look(w, 1301, Some(512));
    assert!(matches!(verdict, Verdict::Complete));
    assert_eq!(next.last_size, 512);
    assert_eq!(next.stable_since, 300);
}

#[test]
fn upload_look_records_a_change_and_restarts_the_window() {
    let w = Watch { last_size: 0, stable_since: 0 };
    let (next, verdict) = FileUploadTask::look(w, 5000, Some(512));
    assert!(matches!(verdict, Verdict::Record(512)));
    assert_eq!(next.last_size, 512);
    assert_eq!(next.stable_since, 5000);
    let (next, verdict) = FileUploadTask::look(next, 9000, Some(100));
    assert!(matches!(verdict, Verdict::Record(100)));
    assert_eq!(next.stable_since, 9000);
}

#[test]
fn upload_look_with_a_clock_that_went_back() {
    let w = Watch { last_size: 7, stable_since: 5000 };
    let (_, verdict) = FileUploadTask::look(w, 10, Some(7));
    assert!(matches!(verdict, Verdict::Wait));
}

#[test]
fn upload_look_fails_without_a_size_and_on_a_size_too_large() {
    let (w, verdict) = FileUploadTask::look(Watch { last_size: 1, stable_since: 2 }, 3, None);
    assert!(matches!(verdict, Verdict::Failed(TaskError::FileSizeUnknown)));
    assert_eq!((w.last_size, w.stable_since), (1, 2));
    let (_, verdict) = FileUploadTask::look(
        Watch { last_size: 1, stable_since: 2 },
        3,
        Some(MAX_RECORDED_SIZE + 1),
    );
    assert!(matches!(verdict, Verdict::Failed(TaskError::FileTooLarge)));
    let (_, verdict) =
        FileUploadTask::look(Watch { last_size: 1, stable_since: 2 }, 3, Some(MAX_RECORDED_SIZE));
    assert!(matches!(verdict, Verdict::Record(i32::MAX)));
}

#[test]
fn upload_run_needs_the_state_of_setup() {
    let kind = FileUploadTask::new();
    let mut st = state("notes.pdf");
    assert_eq!(failed(kind.run(SPACE, TASK, &mut st, None)), TaskError::MissingData);
    assert_eq!(
        failed(kind.run(SPACE, TASK, &mut st, Some(UploadReply::Now(1)))),
        TaskError::MissingData
    );
}

/// Drives the run with looks at the given times and sizes; returns the time
/// of the look that completed it, and the sizes that were recorded.
fn watch(st: &mut TaskState<FileUploadTask>, start: u64, looks: &[(u64, u64)]) -> (Option<u64>, Vec<i32>) {
    let kind = FileUploadTask::new();
    let mut recorded = Vec::new();
    assert!(matches!(kind.run(SPACE, TASK, st, None), Step::Ask(UploadRequest::Now)));
    match kind.run(SPACE, TASK, st, Some(UploadReply::Now(start))) {
        Step::Ask(UploadRequest::Poll { path, wait_ms }) => {
            assert_eq!(path, st.info.path);
            assert_eq!(wait_ms, 100);
        }
        _ => panic!("the run did not start to poll"),
    }
    for (now, size) in looks {
        let step = kind.run(
            SPACE,
            TASK,
            st,
            Some(UploadReply::Observed { now: *now, size: Some(*size) }),
        );
        match step {
            Step::Done => return (Some(*now), recorded),
            Step::Ask(UploadRequest::Poll { .. }) => {}
            Step::Ask(UploadRequest::RecordSize { file_id, size }) => {
                assert_eq!(file_id, FILE);
                recorded.push(size);
                let next = kind.run(SPACE, TASK, st, Some(UploadReply::Stored));
                assert!(matches!(next, Step::Ask(UploadRequest::Poll { .. })));
            }
            _ => panic!("the run went wrong"),
        }
    }
    (None, recorded)
}

#[test]
fn upload_of_notes_pdf_completes_after_the_window() {
    // The file has 0 bytes at first and 512 from 300 ms on; it is looked at
    // every 300 ms.
    let mut st = set_up("notes.pdf");
    let looks: Vec<(u64, u64)> =
        (0..10).map(|i| (i * 300, if i == 0 { 0 } else { 512 })).collect();
    let (done, recorded) = watch(&mut st, 0, &looks);
    assert_eq!(recorded, vec![512]);
    // 1500 is the first look more than 1000 ms after the change at 300.
    assert_eq!(done, Some(1500));
    let data = st.data.expect("the state is gone");
    assert_eq!(data.last_size, 512);
    assert_eq!(data.stable_since, 300);
}

#[test]
fn upload_does_not_complete_at_exactly_the_window() {
    let mut st = set_up("notes.pdf");
    let (done, recorded) = watch(&mut st, 0, &[(100, 512), (1100, 512)]);
    assert_eq!(done, None);
    assert_eq!(recorded, vec![512]);
    let mut st = set_up("notes.pdf");
    let (done, _) = watch(&mut st, 0, &[(100, 512), (1100, 512), (1101, 512)]);
    assert_eq!(done, Some(1101));
}

#[test]
fn upload_of_a_growing_file_records_every_change() {
    let mut st = set_up("big.csv");
    let looks = [
        (100, 10),
        (200, 20),
        (300, 20),
        (400, 35),
        (1000, 35),
        (1400, 35),
        (1401, 35),
    ];
    let (done, recorded) = watch(&mut st, 50, &looks);
    assert_eq!(recorded, vec![10, 20, 35]);
    assert_eq!(done, Some(1401));
    assert_eq!(st.data.expect("the state is gone").last_size, 35);
}

#[test]
fn upload_of_a_file_that_stays_empty() {
    let mut st = set_up("empty.txt");
    let (done, recorded) = watch(&mut st, 500, &[(600, 0), (1500, 0), (1501, 0)]);
    assert_eq!(recorded, Vec::<i32>::new());
    assert_eq!(done, Some(1501));
}

#[test]
fn upload_of_a_file_that_shrinks_back_restarts_the_window() {
    let mut st = set_up("notes.pdf");
    let (done, recorded) =
        watch(&mut st, 0, &[(100, 5), (900, 0), (1200, 0), (1901, 0)]);
    assert_eq!(recorded, vec![5, 0]);
    assert_eq!(done, Some(1901));
}

#[test]
fn upload_run_fails_where_the_size_cannot_be_read() {
    let kind = FileUploadTask::new();
    let mut st = set_up("notes.pdf");
    kind.run(SPACE, TASK, &mut st, None);
    kind.run(SPACE, TASK, &mut st, Some(UploadReply::Now(0)));
    let step = kind.run(SPACE, TASK, &mut st, Some(UploadReply::Observed { now: 100, size: None }));
    assert_eq!(failed(step), TaskError::FileSizeUnknown);
}

#[test]
fn upload_run_fails_on_a_file_too_large_to_record() {
    let kind = FileUploadTask::new();
    let mut st = set_up("notes.pdf");
    kind.run(SPACE, TASK, &mut st, None);
    kind.run(SPACE, TASK, &mut st, Some(UploadReply::Now(0)));
    let step = kind.run(
        SPACE,
        TASK,
        &mut st,
        Some(UploadReply::Observed { now: 100, size: Some(1 << 31) }),
    );
    assert_eq!(failed(step), TaskError::FileTooLarge);
}

#[test]
fn upload_run_fails_where_the_size_cannot_be_recorded() {
    let kind = FileUploadTask::new();
    let mut st = set_up("notes.pdf");
    kind.run(SPACE, TASK, &mut st, None);
    kind.run(SPACE, TASK, &mut st, Some(UploadReply::Now(0)));
    let step =
        kind.run(SPACE, TASK, &mut st, Some(UploadReply::Observed { now: 100, size: Some(9) }));
    assert!(matches!(step, Step::Ask(UploadRequest::RecordSize { file_id: FILE, size: 9 })));
    let step = kind.run(SPACE, TASK, &mut st, Some(UploadReply::StoreFailed));
    assert_eq!(failed(step), TaskError::FileSizeNotRecorded);
}

#[test]
fn upload_run_refuses_replies_out_of_order() {
    let kind = FileUploadTask::new();
    let mut st = set_up("notes.pdf");
    kind.run(SPACE, TASK, &mut st, None);
    let step =
        kind.run(SPACE, TASK, &mut st, Some(UploadReply::Observed { now: 1, size: Some(1) }));
    assert_eq!(failed(step), TaskError::OutOfOrder);
    let step = kind.run(SPACE, TASK, &mut st, Some(UploadReply::Stored));
    assert_eq!(failed(step), TaskError::OutOfOrder);
}

#[test]
fn upload_finish_tells_that_the_list_of_files_changed() {
    let kind = FileUploadTask::new();
    for outcome in [TaskStatus::Succeeded, TaskStatus::Failed] {
        let mut st = set_up("notes.pdf");
        match kind.finish(SPACE, TASK, &mut st, outcome, None) {
            Step::Ask(UploadRequest::Invalidate { key }) => assert_eq!(key, "files.list"),
            _ => panic!("finish did not invalidate"),
        }
        let step = kind.finish(SPACE, TASK, &mut st, outcome, Some(UploadReply::Stored));
        assert!(matches!(step, Step::Done));
    }
}

#[test]
fn upload_finish_works_without_the_state_of_setup() {
    let kind = FileUploadTask::new();
    let mut st = state("notes.pdf");
    let step = kind.finish(SPACE, TASK, &mut st, TaskStatus::Failed, None);
    assert!(matches!(step, Step::Ask(UploadRequest::Invalidate { .. })));
    let _unused: Option<FileUploadTaskState> = st.data;
}

#[test]
fn upload_input_makes_a_task() {
    let task = FileUploadTaskInfo { path: "notes.pdf".to_string() }.runnable();
    assert_eq!(task.lifecycle, Lifecycle::Created);
    assert_eq!(task.task_type(), "file_upload");
    assert_eq!(task.task_info.info.path, "notes.pdf");
}
