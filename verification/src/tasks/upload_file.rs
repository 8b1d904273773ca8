//! The upload task: registers a file that is being written into a space, and
//! watches its size until the writing has stopped.

use vstd::prelude::*;
use std::collections::hash_map::DefaultHasher;
use crate::records::FileRecord;
use crate::status::TaskStatus;
use crate::tasks::{IntoTask, Lifecycle, Step, Task, TaskError, TaskExec, TaskInfo, TaskState, hash_str, str_hash_writes};
use crate::text::{after_last, before_first, same_text, text_after_last, text_before_first};
use crate::utils::{id_text, is_random_id, new_id, u2s};

verus! {

/// How long the watch waits before it looks at the file again, in
/// milliseconds.
pub const POLL_INTERVAL_MS: u64 = 100;

/// How long the size of the file has to stay the same before the upload
/// counts as complete, in milliseconds.
pub const STABILITY_WINDOW_MS: u64 = 1000;

/// The largest size that the store can record.
pub const MAX_RECORDED_SIZE: u64 = 0x7fff_ffff;

/// The name of the query whose answers an upload puts out of date.
pub open spec fn files_list_key() -> Seq<char> {
    "files.list"@
}

pub struct FileUploadTask {}

/// The input of an upload task.
pub struct FileUploadTaskInfo {
    /// Where the file is written, relative to the directory of the space.
    pub path: String,
}

impl TaskInfo for FileUploadTaskInfo {
    open spec fn spec_task_type() -> Seq<char> {
        "file_upload"@
    }

    open spec fn input_writes(&self) -> Seq<Seq<u8>> {
        str_hash_writes(self.path@)
    }

    fn task_type() -> (tag: &'static str) {
        "file_upload"
    }

    fn hash_input(&self, state: &mut DefaultHasher) {
        hash_str(self.path.as_str(), state);
    }
}

/// What the phases of an upload task share.
#[derive(Debug)]
pub struct FileUploadTaskState {
    pub file_id: u128,
    /// The size that the watch saw last.
    pub last_size: i32,
    /// When the watch first saw that size, in milliseconds.
    pub stable_since: u64,
}

/// The extensions of the documents that can be ingested.
pub open spec fn spec_supported_extensions() -> Seq<Seq<char>> {
    seq![
        "csv"@,
        "doc"@,
        "docx"@,
        "enex"@,
        "epub"@,
        "html"@,
        "md"@,
        "odt"@,
        "pdf"@,
        "ppt"@,
        "pptx"@,
        "txt"@,
    ]
}

/// The last segment of a path.
pub open spec fn spec_file_name(path: Seq<char>) -> Seq<char> {
    after_last(path, '/')
}

/// What follows the last dot of the last segment of a path; the whole
/// segment where it has no dot.
pub open spec fn spec_extension(path: Seq<char>) -> Seq<char> {
    after_last(spec_file_name(path), '.')
}

/// What precedes the first dot of the last segment of a path.
pub open spec fn spec_stem(path: Seq<char>) -> Seq<char> {
    before_first(spec_file_name(path), '.')
}

/// The extensions of the documents that can be ingested.
pub fn supported_extensions() -> (list: Vec<&'static str>)
    ensures
        list@.len() == spec_supported_extensions().len(),
        forall|i: int| 0 <= i < list@.len() ==> (#[trigger] list@[i])@ == spec_supported_extensions()[i],
{
    let mut list: Vec<&'static str> = Vec::new();
    list.push("csv");
    list.push("doc");
    list.push("docx");
    list.push("enex");
    list.push("epub");
    list.push("html");
    list.push("md");
    list.push("odt");
    list.push("pdf");
    list.push("ppt");
    list.push("pptx");
    list.push("txt");
    list
}

/// Whether documents of this extension can be ingested. Case counts.
pub fn is_supported(extension: &str) -> (supported: bool)
    ensures
        supported == spec_supported_extensions().contains(extension@),
{
    let list = supported_extensions();
    let mut i: usize = 0;
    while i < list.len()
        invariant
            0 <= i <= list@.len(),
            list@.len() == spec_supported_extensions().len(),
            forall|k: int|
                0 <= k < list@.len() ==> (#[trigger] list@[k])@ == spec_supported_extensions()[k],
            forall|k: int| 0 <= k < i ==> spec_supported_extensions()[k] != extension@,
        decreases list@.len() - i,
    {
        if same_text(list[i], extension) {
            assert(spec_supported_extensions()[i as int] == extension@);
            return true;
        }
        i = i + 1;
    }
    false
}

/// The file row that setup asks the store to create.
pub struct NewFile {
    pub id: u128,
    pub id_str: String,
    pub path: String,
    pub name: String,
    pub extension: String,
    pub space_id: u128,
    /// The task that watches the file.
    pub task_id: u128,
    pub supported: bool,
}

pub struct NewFileView {
    pub id: u128,
    pub id_str: Seq<char>,
    pub path: Seq<char>,
    pub name: Seq<char>,
    pub extension: Seq<char>,
    pub space_id: u128,
    pub task_id: u128,
    pub supported: bool,
}

impl View for NewFile {
    type V = NewFileView;

    open spec fn view(&self) -> NewFileView {
        NewFileView {
            id: self.id,
            id_str: self.id_str@,
            path: self.path@,
            name: self.name@,
            extension: self.extension@,
            space_id: self.space_id,
            task_id: self.task_id,
            supported: self.supported,
        }
    }
}

/// The file row for an upload to `path`: named by what precedes the first
/// dot of the last segment, with what follows the last dot as extension.
pub open spec fn spec_new_file(id: u128, path: Seq<char>, space_id: u128, task_id: u128) -> NewFileView {
    NewFileView {
        id,
        id_str: id_text(id),
        path,
        name: spec_stem(path),
        extension: spec_extension(path),
        space_id,
        task_id,
        supported: spec_supported_extensions().contains(spec_extension(path)),
    }
}

/// The file row for an upload to `path`.
pub fn new_file(id: u128, path: &str, space_id: u128, task_id: u128) -> (row: NewFile)
    ensures
        row@ == spec_new_file(id, path@, space_id, task_id),
{
    let file_name = text_after_last(path, '/');
    let extension = text_after_last(file_name.as_str(), '.');
    let name = text_before_first(file_name.as_str(), '.');
    let supported = is_supported(extension.as_str());
    NewFile {
        id,
        id_str: u2s(id),
        path: path.to_owned(),
        name,
        extension,
        space_id,
        task_id,
        supported,
    }
}

/// What a phase of an upload task asks of its driver.
pub enum UploadRequest {
    /// Create the file row. Reply with the row.
    CreateFile(NewFile),
    /// Reply with the time of a clock that never goes back, in milliseconds.
    Now,
    /// Wait `wait_ms` milliseconds, then reply with the time of the same
    /// clock and with the size of the file at `path` below the directory of
    /// the space.
    Poll { path: String, wait_ms: u64 },
    /// Record the size in the file row.
    RecordSize { file_id: u128, size: i32 },
    /// Tell subscribers that the answers of the query `key` are out of
    /// date.
    Invalidate { key: String },
}

pub enum UploadRequestView {
    CreateFile(NewFileView),
    Now,
    Poll { path: Seq<char>, wait_ms: u64 },
    RecordSize { file_id: u128, size: i32 },
    Invalidate { key: Seq<char> },
}

impl View for UploadRequest {
    type V = UploadRequestView;

    open spec fn view(&self) -> UploadRequestView {
        match self {
            UploadRequest::CreateFile(f) => UploadRequestView::CreateFile(f@),
            UploadRequest::Now => UploadRequestView::Now,
            UploadRequest::Poll { path, wait_ms } => UploadRequestView::Poll {
                path: path@,
                wait_ms: *wait_ms,
            },
            UploadRequest::RecordSize { file_id, size } => UploadRequestView::RecordSize {
                file_id: *file_id,
                size: *size,
            },
            UploadRequest::Invalidate { key } => UploadRequestView::Invalidate { key: key@ },
        }
    }
}

/// What a phase asks next, with the request by its view.
pub enum UploadStepView {
    Ask(UploadRequestView),
    Done,
    Failed(TaskError),
}

pub open spec fn step_view(step: Step<UploadRequest>) -> UploadStepView {
    match step {
        Step::Ask(r) => UploadStepView::Ask(r@),
        Step::Done => UploadStepView::Done,
        Step::Failed(e) => UploadStepView::Failed(e),
    }
}

/// What the driver hands back to a phase of an upload task.
pub enum UploadReply {
    /// The store created the file.
    Created(FileRecord),
    Now(u64),
    /// The time, and the size of the file; `None` where the size could not
    /// be read.
    Observed { now: u64, size: Option<u64> },
    /// The store, or the event bus, did what was asked.
    Stored,
    /// The store failed the request.
    StoreFailed,
}

/// What the watch knows between two looks at the file.
pub struct Watch {
    pub last_size: i32,
    pub stable_since: u64,
}

/// What the watch does after a look at the file.
pub enum Verdict {
    /// The size is the same, but not for long enough: look again.
    Wait,
    /// The size has changed: record it, then look again.
    Record(i32),
    /// The size has been the same for longer than the window.
    Complete,
    Failed(TaskError),
}

/// How long the time `now` is after `since`; nothing where it is not after.
pub open spec fn elapsed(since: u64, now: u64) -> int {
    if now >= since {
        now - since
    } else {
        0
    }
}

/// One look at the file, at the time `now`: the watch after it, and what it
/// does.
///
/// A size that differs from the last one restarts the window and is
/// recorded at once. The same size completes the upload once it has stayed
/// for longer than the window.
pub open spec fn observe(w: Watch, now: u64, size: Option<u64>) -> (Watch, Verdict) {
    match size {
        None => (w, Verdict::Failed(TaskError::FileSizeUnknown)),
        Some(len) => if len > MAX_RECORDED_SIZE {
            (w, Verdict::Failed(TaskError::FileTooLarge))
        } else if len == w.last_size {
            if elapsed(w.stable_since, now) > STABILITY_WINDOW_MS {
                (w, Verdict::Complete)
            } else {
                (w, Verdict::Wait)
            }
        } else {
            (Watch { last_size: len as i32, stable_since: now }, Verdict::Record(len as i32))
        },
    }
}

/// One look at the file.
pub struct Look {
    pub now: u64,
    pub size: u64,
}

/// The size that the watch saw before the `i`-th look: nothing before the
/// first.
pub open spec fn size_before(looks: Seq<Look>, i: int) -> int {
    if i <= 0 {
        0
    } else {
        looks[i - 1].size as int
    }
}

/// Whether the `i`-th look saw another size than the look before it.
pub open spec fn is_change(looks: Seq<Look>, i: int) -> bool {
    looks[i].size != size_before(looks, i)
}

/// The place of the last look that saw a change; -1 where none did.
pub open spec fn last_change(looks: Seq<Look>) -> int
    decreases looks.len(),
{
    if looks.len() == 0 {
        -1
    } else if is_change(looks, looks.len() - 1) {
        looks.len() - 1
    } else {
        last_change(looks.drop_last())
    }
}

/// The watch that started at the time `start`, after these looks.
pub open spec fn watch_after(start: u64, looks: Seq<Look>) -> Watch
    decreases looks.len(),
{
    if looks.len() == 0 {
        Watch { last_size: 0, stable_since: start }
    } else {
        observe(watch_after(start, looks.drop_last()), looks.last().now, Some(looks.last().size)).0
    }
}

/// What the watch that started at the time `start` does after the `i`-th of
/// these looks.
pub open spec fn verdict_at(start: u64, looks: Seq<Look>, i: int) -> Verdict {
    observe(watch_after(start, looks.take(i)), looks[i].now, Some(looks[i].size)).1
}

/// After any number of looks at a file that the store can record, the watch
/// holds the size that the last look saw, and the time of the last look
/// that saw a change, or its start where none did.
pub proof fn lemma_watch_after(start: u64, looks: Seq<Look>)
    requires
        forall|i: int| 0 <= i < looks.len() ==> looks[i].size <= MAX_RECORDED_SIZE,
    ensures
        watch_after(start, looks).last_size == size_before(looks, looks.len() as int),
        -1 <= last_change(looks) < looks.len(),
        last_change(looks) == -1 ==> watch_after(start, looks).stable_since == start
            && watch_after(start, looks).last_size == 0,
        last_change(looks) >= 0 ==> watch_after(start, looks).stable_since == looks[last_change(
            looks,
        )].now && is_change(looks, last_change(looks)) && looks[last_change(looks)].size
            == watch_after(start, looks).last_size,
        forall|i: int| last_change(looks) < i < looks.len() ==> !is_change(looks, i),
    decreases looks.len(),
{
    if looks.len() > 0 {
        let init = looks.drop_last();
        lemma_watch_after(start, init);
        let n = looks.len() as int;
        assert(size_before(init, n - 1) == size_before(looks, n - 1));
        assert(n >= 2 ==> init[n - 2] == looks[n - 2]);
        if is_change(looks, n - 1) {
        } else {
            let j = last_change(init);
            assert(last_change(looks) == j);
            if j >= 0 {
                assert(init[j] == looks[j]);
                assert(size_before(init, j) == size_before(looks, j)) by {
                    if j > 0 {
                        assert(init[j - 1] == looks[j - 1]);
                    }
                }
            }
            assert forall|i: int| j < i < looks.len() implies !is_change(looks, i) by {
                if i < n - 1 {
                    assert(!is_change(init, i));
                    assert(init[i] == looks[i]);
                    assert(size_before(init, i) == size_before(looks, i)) by {
                        if i > 0 {
                            assert(init[i - 1] == looks[i - 1]);
                        }
                    }
                }
            }
        }
    }
}

/// Every look that sees a change has the new size recorded at once, as
/// long as the store can record the sizes seen so far.
pub proof fn lemma_changes_are_recorded(start: u64, looks: Seq<Look>, i: int)
    requires
        0 <= i < looks.len(),
        forall|k: int| 0 <= k <= i ==> looks[k].size <= MAX_RECORDED_SIZE,
        is_change(looks, i),
    ensures
        verdict_at(start, looks, i) == Verdict::Record(looks[i].size as i32),
{
    let prefix = looks.take(i);
    assert forall|k: int| 0 <= k < prefix.len() implies prefix[k].size <= MAX_RECORDED_SIZE by {
        assert(prefix[k] == looks[k]);
    }
    lemma_watch_after(start, prefix);
    assert(size_before(prefix, i) == size_before(looks, i)) by {
        if i > 0 {
            assert(prefix[i - 1] == looks[i - 1]);
        }
    }
}

/// The upload completes no sooner than the window after the last change of
/// size, and with the final size recorded.
///
/// This holds of every run, whatever the looks at the file show: where the
/// watch that started at the time `start` has not failed before the `k`-th
/// look and says at that look that the upload is complete, the file has the
/// size that the last change brought, that size was recorded when the
/// change was seen, no look since has seen another size, and more than the
/// window has passed since that look; where no look saw a change, the file
/// is empty and more than the window has passed since the start.
pub proof fn lemma_upload_completion(start: u64, looks: Seq<Look>, k: int)
    requires
        0 <= k < looks.len(),
        forall|i: int| 0 <= i < k ==> !(#[trigger] verdict_at(start, looks, i) is Failed),
        verdict_at(start, looks, k) is Complete,
    ensures
        ({
            let j = last_change(looks.take(k));
            &&& -1 <= j < k
            &&& forall|i: int| j < i <= k ==> !is_change(looks, i)
            &&& j == -1 ==> looks[k].size == 0 && looks[k].now - start > STABILITY_WINDOW_MS
            &&& j >= 0 ==> {
                &&& looks[k].size == looks[j].size
                &&& verdict_at(start, looks, j) == Verdict::Record(looks[k].size as i32)
                &&& looks[k].now - looks[j].now > STABILITY_WINDOW_MS
            }
        }),
{
    let prefix = looks.take(k);
    assert forall|i: int| 0 <= i <= k implies looks[i].size <= MAX_RECORDED_SIZE by {
        if i < k {
            assert(!(verdict_at(start, looks, i) is Failed));
        }
    }
    assert forall|i: int| 0 <= i < prefix.len() implies prefix[i].size <= MAX_RECORDED_SIZE by {
        assert(prefix[i] == looks[i]);
    }
    lemma_watch_after(start, prefix);
    let j = last_change(prefix);
    assert(size_before(prefix, k) == size_before(looks, k)) by {
        if k > 0 {
            assert(prefix[k - 1] == looks[k - 1]);
        }
    }
    assert forall|i: int| j < i <= k implies !is_change(looks, i) by {
        if i < k {
            assert(!is_change(prefix, i));
            assert(prefix[i] == looks[i]);
            if i > 0 {
                assert(prefix[i - 1] == looks[i - 1]);
            }
        }
    }
    if j >= 0 {
        assert(prefix[j] == looks[j]);
        if j > 0 {
            assert(prefix[j - 1] == looks[j - 1]);
        }
        assert(is_change(looks, j));
        lemma_changes_are_recorded(start, looks, j);
    }
}

/// The watch that the scratch state holds.
pub open spec fn watch_of(data: FileUploadTaskState) -> Watch {
    Watch { last_size: data.last_size, stable_since: data.stable_since }
}

/// How one turn of setup relates the state before it, the reply and the
/// identity `fresh` at hand to the state after it and to what is asked next.
///
/// Setup creates the file row under the identity `fresh`, then leaves the
/// scratch state.
pub open spec fn setup_turn(
    space_id: u128,
    task_id: u128,
    pre: TaskState<FileUploadTask>,
    reply: Option<UploadReply>,
    fresh: u128,
    post: TaskState<FileUploadTask>,
    step: Step<UploadRequest>,
) -> bool {
    &&& post.info == pre.info
    &&& match reply {
        None => {
            &&& step_view(step) == UploadStepView::Ask(
                UploadRequestView::CreateFile(
                    spec_new_file(fresh, pre.info.path@, space_id, task_id),
                ),
            )
            &&& post.cursor == 1
            &&& post.data == pre.data
        },
        Some(UploadReply::Created(row)) if pre.cursor == 1 => {
            &&& step is Done
            &&& post.cursor == 2
            &&& post.data == Some(
                FileUploadTaskState { file_id: row.id, last_size: 0, stable_since: 0 },
            )
        },
        Some(UploadReply::StoreFailed) => {
            &&& step == Step::<UploadRequest>::Failed(TaskError::Store)
            &&& post.cursor == pre.cursor
            &&& post.data == pre.data
        },
        _ => {
            &&& step == Step::<UploadRequest>::Failed(TaskError::OutOfOrder)
            &&& post.cursor == pre.cursor
            &&& post.data == pre.data
        },
    }
}

/// The request to look at the file again after the poll interval.
pub open spec fn spec_poll(path: Seq<char>) -> UploadStepView {
    UploadStepView::Ask(UploadRequestView::Poll { path, wait_ms: POLL_INTERVAL_MS })
}

/// How one turn of run relates the state before it and the reply to the
/// state after it and to what is asked next.
///
/// Run starts the watch at the time of the clock, then looks at the file
/// after every poll interval and does what `observe` says.
pub open spec fn run_turn(
    pre: TaskState<FileUploadTask>,
    reply: Option<UploadReply>,
    post: TaskState<FileUploadTask>,
    step: Step<UploadRequest>,
) -> bool {
    &&& post.info == pre.info
    &&& match pre.data {
        None => {
            &&& step == Step::<UploadRequest>::Failed(TaskError::MissingData)
            &&& post.cursor == pre.cursor
            &&& post.data is None
        },
        Some(data) => match reply {
            None => {
                &&& step_view(step) == UploadStepView::Ask(UploadRequestView::Now)
                &&& post.cursor == 1
                &&& post.data == pre.data
            },
            Some(UploadReply::Now(now)) if pre.cursor == 1 => {
                &&& step_view(step) == spec_poll(pre.info.path@)
                &&& post.cursor == 2
                &&& post.data == Some(
                    FileUploadTaskState { last_size: 0, stable_since: now, ..data },
                )
            },
            Some(UploadReply::Observed { now, size }) if pre.cursor == 2 => {
                let (watch, verdict) = observe(watch_of(data), now, size);
                &&& post.data == Some(
                    FileUploadTaskState {
                        last_size: watch.last_size,
                        stable_since: watch.stable_since,
                        ..data
                    },
                )
                &&& match verdict {
                    Verdict::Wait => step_view(step) == spec_poll(pre.info.path@) && post.cursor
                        == 2,
                    Verdict::Record(size) => step_view(step) == UploadStepView::Ask(
                        UploadRequestView::RecordSize { file_id: data.file_id, size },
                    ) && post.cursor == 3,
                    Verdict::Complete => step is Done && post.cursor == 4,
                    Verdict::Failed(e) => step == Step::<UploadRequest>::Failed(e) && post.cursor
                        == pre.cursor,
                }
            },
            Some(UploadReply::Stored) if pre.cursor == 3 => {
                &&& step_view(step) == spec_poll(pre.info.path@)
                &&& post.cursor == 2
                &&& post.data == pre.data
            },
            Some(UploadReply::StoreFailed) => {
                &&& step == Step::<UploadRequest>::Failed(TaskError::FileSizeNotRecorded)
                &&& post.cursor == pre.cursor
                &&& post.data == pre.data
            },
            _ => {
                &&& step == Step::<UploadRequest>::Failed(TaskError::OutOfOrder)
                &&& post.cursor == pre.cursor
                &&& post.data == pre.data
            },
        },
    }
}

/// How one turn of finish relates the state before it and the reply to the
/// state after it and to what is asked next.
///
/// Finish tells subscribers that the list of files has changed, however the
/// run ended.
pub open spec fn finish_turn(
    pre: TaskState<FileUploadTask>,
    reply: Option<UploadReply>,
    post: TaskState<FileUploadTask>,
    step: Step<UploadRequest>,
) -> bool {
    &&& post.info == pre.info
    &&& post.data == pre.data
    &&& match reply {
        None => {
            &&& step_view(step) == UploadStepView::Ask(
                UploadRequestView::Invalidate { key: files_list_key() },
            )
            &&& post.cursor == 1
        },
        Some(UploadReply::Stored) if pre.cursor == 1 => {
            &&& step is Done
            &&& post.cursor == 2
        },
        _ => {
            &&& step == Step::<UploadRequest>::Failed(TaskError::OutOfOrder)
            &&& post.cursor == pre.cursor
        },
    }
}

impl FileUploadTask {
    /// One turn of setup, with the identity `fresh` for the file.
    pub fn setup_with_id(
        &self,
        space_id: u128,
        task_id: u128,
        task_info: &mut TaskState<FileUploadTask>,
        reply: Option<UploadReply>,
        fresh: u128,
    ) -> (step: Step<UploadRequest>)
        ensures
            setup_turn(space_id, task_id, *old(task_info), reply, fresh, *final(task_info), step),
    {
        match reply {
            None => {
                task_info.cursor = 1;
                Step::Ask(
                    UploadRequest::CreateFile(
                        new_file(fresh, task_info.info.path.as_str(), space_id, task_id),
                    ),
                )
            },
            Some(UploadReply::Created(row)) => {
                if task_info.cursor == 1 {
                    task_info.cursor = 2;
                    task_info.data = Some(
                        FileUploadTaskState { file_id: row.id, last_size: 0, stable_since: 0 },
                    );
                    Step::Done
                } else {
                    Step::Failed(TaskError::OutOfOrder)
                }
            },
            Some(UploadReply::StoreFailed) => Step::Failed(TaskError::Store),
            Some(_) => Step::Failed(TaskError::OutOfOrder),
        }
    }

    /// One look at the file, at the time `now`.
    pub fn look(watch: Watch, now: u64, size: Option<u64>) -> (r: (Watch, Verdict))
        ensures
            r == observe(watch, now, size),
    {
        match size {
            None => (watch, Verdict::Failed(TaskError::FileSizeUnknown)),
            Some(len) => {
                if len > MAX_RECORDED_SIZE {
                    (watch, Verdict::Failed(TaskError::FileTooLarge))
                } else {
                    let current: i32 = len as i32;
                    if current == watch.last_size {
                        let waited: u64 = if now >= watch.stable_since {
                            now - watch.stable_since
                        } else {
                            0
                        };
                        if waited > STABILITY_WINDOW_MS {
                            (watch, Verdict::Complete)
                        } else {
                            (watch, Verdict::Wait)
                        }
                    } else {
                        (Watch { last_size: current, stable_since: now }, Verdict::Record(current))
                    }
                }
            },
        }
    }

    fn poll(task_info: &TaskState<FileUploadTask>) -> (step: Step<UploadRequest>)
        ensures
            step_view(step) == spec_poll(task_info.info.path@),
    {
        Step::Ask(
            UploadRequest::Poll { path: task_info.info.path.clone(), wait_ms: POLL_INTERVAL_MS },
        )
    }
}

impl TaskExec for FileUploadTask {
    type Info = FileUploadTaskInfo;

    type Data = FileUploadTaskState;

    type Request = UploadRequest;

    type Reply = UploadReply;

    fn new() -> Self {
        FileUploadTask {  }
    }

    fn setup(
        &self,
        space_id: u128,
        task_id: u128,
        task_info: &mut TaskState<FileUploadTask>,
        reply: Option<UploadReply>,
    ) -> (step: Step<UploadRequest>)
        ensures
            exists|fresh: u128|
                is_random_id(fresh) && #[trigger] setup_turn(
                    space_id,
                    task_id,
                    *old(task_info),
                    reply,
                    fresh,
                    *final(task_info),
                    step,
                ),
    {
        let fresh = new_id();
        let step = self.setup_with_id(space_id, task_id, task_info, reply, fresh);
        assert(is_random_id(fresh) && setup_turn(
            space_id,
            task_id,
            *old(task_info),
            reply,
            fresh,
            *task_info,
            step,
        ));
        step
    }

    fn run(
        &self,
        space_id: u128,
        task_id: u128,
        task_info: &mut TaskState<FileUploadTask>,
        reply: Option<UploadReply>,
    ) -> (step: Step<UploadRequest>)
        ensures
            run_turn(*old(task_info), reply, *final(task_info), step),
    {
        let (file_id, last_size, stable_since) = match &task_info.data {
            None => {
                return Step::Failed(TaskError::MissingData);
            },
            Some(data) => (data.file_id, data.last_size, data.stable_since),
        };
        match reply {
            None => {
                task_info.cursor = 1;
                Step::Ask(UploadRequest::Now)
            },
            Some(UploadReply::Now(now)) => {
                if task_info.cursor == 1 {
                    task_info.cursor = 2;
                    task_info.data = Some(
                        FileUploadTaskState { file_id, last_size: 0, stable_since: now },
                    );
                    Self::poll(task_info)
                } else {
                    Step::Failed(TaskError::OutOfOrder)
                }
            },
            Some(UploadReply::Observed { now, size }) => {
                if task_info.cursor == 2 {
                    let (watch, verdict) = Self::look(Watch { last_size, stable_since }, now, size);
                    task_info.data = Some(
                        FileUploadTaskState {
                            file_id,
                            last_size: watch.last_size,
                            stable_since: watch.stable_since,
                        },
                    );
                    match verdict {
                        Verdict::Wait => Self::poll(task_info),
                        Verdict::Record(size) => {
                            task_info.cursor = 3;
                            Step::Ask(UploadRequest::RecordSize { file_id, size })
                        },
                        Verdict::Complete => {
                            task_info.cursor = 4;
                            Step::Done
                        },
                        Verdict::Failed(e) => Step::Failed(e),
                    }
                } else {
                    Step::Failed(TaskError::OutOfOrder)
                }
            },
            Some(UploadReply::Stored) => {
                if task_info.cursor == 3 {
                    task_info.cursor = 2;
                    Self::poll(task_info)
                } else {
                    Step::Failed(TaskError::OutOfOrder)
                }
            },
            Some(UploadReply::StoreFailed) => Step::Failed(TaskError::FileSizeNotRecorded),
            Some(_) => Step::Failed(TaskError::OutOfOrder),
        }
    }

    fn finish(
        &self,
        space_id: u128,
        task_id: u128,
        task_info: &mut TaskState<FileUploadTask>,
        outcome: TaskStatus,
        reply: Option<UploadReply>,
    ) -> (step: Step<UploadRequest>)
        ensures
            finish_turn(*old(task_info), reply, *final(task_info), step),
    {
        match reply {
            None => {
                task_info.cursor = 1;
                Step::Ask(UploadRequest::Invalidate { key: "files.list".to_owned() })
            },
            Some(UploadReply::Stored) => {
                if task_info.cursor == 1 {
                    task_info.cursor = 2;
                    Step::Done
                } else {
                    Step::Failed(TaskError::OutOfOrder)
                }
            },
            Some(_) => Step::Failed(TaskError::OutOfOrder),
        }
    }
}

impl IntoTask<FileUploadTask> for FileUploadTaskInfo {
    /// A new task with this input, under a fresh random identity.
    fn runnable(self) -> (task: Task<FileUploadTask>)
        ensures
            is_random_id(task.id),
            task.task_info.info == self,
            task.task_info.data is None,
            task.lifecycle == Lifecycle::Created,
            task.wait is Idle,
    {
        Task::new(self)
    }
}

} // verus!
