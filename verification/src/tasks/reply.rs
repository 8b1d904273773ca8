//! The reply task: answers a user message with the help of the answer
//! service, from the conversation so far.

use vstd::prelude::*;
use std::collections::hash_map::DefaultHasher;
use crate::records::{clone_text, text_view, MessageRecord, MessageRecordView};
use crate::status::{ResponseStatus, TaskStatus};
use crate::tasks::{IntoTask, Lifecycle, Step, Task, TaskError, TaskExec, TaskInfo, TaskState, hash_id};
use crate::utils::{id_bytes, id_text, is_random_id, new_id, spec_vector_db_path, u2s, vector_db_path};

verus! {

/// The error type of `serde_json`.
#[verifier::external_type_specification]
#[verifier::external_body]
pub struct ExJsonError(serde_json::Error);

/// The JSON string literal for the text `s`, quotes and escapes included.
pub uninterp spec fn json_string(s: Seq<char>) -> Seq<char>;

/// `serde_json::to_string` on a `str`: it succeeds on every text (it writes
/// into memory, and a text is neither a map nor a value that can refuse to
/// be serialised), and the result is the JSON string literal for the text,
/// a function of the text alone.
#[verifier::external_body]
fn json_quote(s: &str) -> (r: Result<String, serde_json::Error>)
    ensures
        r is Ok,
        r matches Ok(text) ==> text@ == json_string(s@),
{
    serde_json::to_string(s)
}

/// Where the answer service listens.
pub const ASK_URL: &'static str = "http://localhost:5001/ask";

/// How many earlier exchanges a question is sent with, at most.
pub const HISTORY_WINDOW: i64 = 10;

/// The text of a response message whose task failed before the answer
/// service said anything.
pub const FAILURE_TEXT: &'static str = "Failed to generate response";

/// The text of a response message while its answer is being generated.
pub open spec fn placeholder_text() -> Seq<char> {
    "Generating response..."@
}

pub struct ReplyTask {}

/// The input of a reply task: the user message to answer.
pub struct ReplyTaskInfo {
    pub message_id: u128,
    pub message_text: String,
}

impl TaskInfo for ReplyTaskInfo {
    open spec fn spec_task_type() -> Seq<char> {
        "reply"@
    }

    /// Only the identity of the message counts, not its text.
    open spec fn input_writes(&self) -> Seq<Seq<u8>> {
        seq![id_bytes(self.message_id)]
    }

    fn task_type() -> (tag: &'static str) {
        "reply"
    }

    fn hash_input(&self, state: &mut DefaultHasher) {
        hash_id(self.message_id, state);
        assert(old(state)@.push(id_bytes(self.message_id)) =~= old(state)@ + seq![
            id_bytes(self.message_id),
        ]);
    }
}

/// What is sent to the answer service.
#[derive(Debug)]
pub struct AskRequest {
    pub vector_db_path: String,
    pub question: String,
    /// The conversation so far, as a JSON array.
    pub chat_history: String,
}

pub struct AskRequestView {
    pub vector_db_path: Seq<char>,
    pub question: Seq<char>,
    pub chat_history: Seq<char>,
}

impl View for AskRequest {
    type V = AskRequestView;

    open spec fn view(&self) -> AskRequestView {
        AskRequestView {
            vector_db_path: self.vector_db_path@,
            question: self.question@,
            chat_history: self.chat_history@,
        }
    }
}

/// One earlier exchange: what the user wrote and what was answered.
#[allow(non_snake_case)]
#[derive(Debug)]
pub struct ChatHistoryEntry {
    pub HUMAN: String,
    pub AI: String,
}

pub struct ChatHistoryEntryView {
    pub human: Seq<char>,
    pub ai: Seq<char>,
}

impl View for ChatHistoryEntry {
    type V = ChatHistoryEntryView;

    open spec fn view(&self) -> ChatHistoryEntryView {
        ChatHistoryEntryView { human: self.HUMAN@, ai: self.AI@ }
    }
}

/// What the answer service sends back.
#[derive(Debug)]
pub struct AskResponse {
    pub success: bool,
    pub response_error: Option<String>,
    pub result: Option<String>,
}

/// What the phases of a reply task share.
#[derive(Debug)]
pub struct ReplyTaskState {
    pub message_id: u128,
    pub response_message_id: u128,
    pub message_text: String,
    /// The answer, once the answer service gave one.
    pub response_text: Option<String>,
    /// The error text, once the answer service gave one.
    pub response_error: Option<String>,
}

pub struct ReplyTaskStateView {
    pub message_id: u128,
    pub response_message_id: u128,
    pub message_text: Seq<char>,
    pub response_text: Option<Seq<char>>,
    pub response_error: Option<Seq<char>>,
}

impl View for ReplyTaskState {
    type V = ReplyTaskStateView;

    open spec fn view(&self) -> ReplyTaskStateView {
        ReplyTaskStateView {
            message_id: self.message_id,
            response_message_id: self.response_message_id,
            message_text: self.message_text@,
            response_text: text_view(self.response_text),
            response_error: text_view(self.response_error),
        }
    }
}

/// The view of the scratch state, if there is one.
pub open spec fn data_view(data: Option<ReplyTaskState>) -> Option<ReplyTaskStateView> {
    match data {
        Some(d) => Some(d@),
        None => None,
    }
}

/// The response message that setup asks the store to create.
pub struct NewMessage {
    pub id: u128,
    pub id_str: String,
    pub text: String,
    pub space_id: u128,
    pub is_user_message: bool,
    pub response_status: i32,
    /// The user message that this one responds to.
    pub user_message_id: u128,
    /// The task that generates this message.
    pub task_id: u128,
}

pub struct NewMessageView {
    pub id: u128,
    pub id_str: Seq<char>,
    pub text: Seq<char>,
    pub space_id: u128,
    pub is_user_message: bool,
    pub response_status: i32,
    pub user_message_id: u128,
    pub task_id: u128,
}

impl View for NewMessage {
    type V = NewMessageView;

    open spec fn view(&self) -> NewMessageView {
        NewMessageView {
            id: self.id,
            id_str: self.id_str@,
            text: self.text@,
            space_id: self.space_id,
            is_user_message: self.is_user_message,
            response_status: self.response_status,
            user_message_id: self.user_message_id,
            task_id: self.task_id,
        }
    }
}

/// A change to one message row. The finalisation time is set to the time
/// at which the change is made.
pub struct MessageChange {
    pub id: u128,
    /// The new text; `None` leaves the text as it is.
    pub text: Option<String>,
    pub response_status: i32,
}

pub struct MessageChangeView {
    pub id: u128,
    pub text: Option<Seq<char>>,
    pub response_status: i32,
}

impl View for MessageChange {
    type V = MessageChangeView;

    open spec fn view(&self) -> MessageChangeView {
        MessageChangeView {
            id: self.id,
            text: text_view(self.text),
            response_status: self.response_status,
        }
    }
}

/// What a phase of a reply task asks of its driver.
pub enum ReplyRequest {
    /// Link the task to the user message.
    AttachTask { message_id: u128, task_id: u128 },
    /// Create the response message. Reply with the row.
    CreateResponse(NewMessage),
    /// Reply with the directory of all spaces and with the user messages of
    /// the space that have the given response status, newest first, at most
    /// `limit` of them, each with the text of its response.
    Context { space_id: u128, response_status: i32, limit: i64 },
    /// Send the question to the answer service. Reply with its answer.
    PostAsk(AskRequest),
    UpdateMessage(MessageChange),
}

pub enum ReplyRequestView {
    AttachTask { message_id: u128, task_id: u128 },
    CreateResponse(NewMessageView),
    Context { space_id: u128, response_status: i32, limit: i64 },
    PostAsk(AskRequestView),
    UpdateMessage(MessageChangeView),
}

impl View for ReplyRequest {
    type V = ReplyRequestView;

    open spec fn view(&self) -> ReplyRequestView {
        match self {
            ReplyRequest::AttachTask { message_id, task_id } => ReplyRequestView::AttachTask {
                message_id: *message_id,
                task_id: *task_id,
            },
            ReplyRequest::CreateResponse(m) => ReplyRequestView::CreateResponse(m@),
            ReplyRequest::Context { space_id, response_status, limit } => ReplyRequestView::Context {
                space_id: *space_id,
                response_status: *response_status,
                limit: *limit,
            },
            ReplyRequest::PostAsk(r) => ReplyRequestView::PostAsk(r@),
            ReplyRequest::UpdateMessage(c) => ReplyRequestView::UpdateMessage(c@),
        }
    }
}

/// What a phase asks next, with the request by its view.
pub enum ReplyStepView {
    Ask(ReplyRequestView),
    Done,
    Failed(TaskError),
}

pub open spec fn step_view(step: Step<ReplyRequest>) -> ReplyStepView {
    match step {
        Step::Ask(r) => ReplyStepView::Ask(r@),
        Step::Done => ReplyStepView::Done,
        Step::Failed(e) => ReplyStepView::Failed(e),
    }
}

/// What the driver hands back to a phase of a reply task.
pub enum ReplyReply {
    /// The store did what was asked.
    Stored,
    /// The store created the message.
    Created(MessageRecord),
    Context { spaces_dir: String, newest_first: Vec<MessageRecord> },
    Answer(AskResponse),
    /// The answer service could not be reached; with the text of the
    /// error.
    NotSent(String),
    /// The answer of the answer service could not be read; with the text
    /// of the error.
    NotParsed(String),
    /// The store failed the request.
    StoreFailed,
}

/// The rows of a list of messages.
pub open spec fn rows_view(rows: Seq<MessageRecord>) -> Seq<MessageRecordView> {
    rows.map_values(|m: MessageRecord| m@)
}

/// The entries of a list of exchanges.
pub open spec fn entries_view(entries: Seq<ChatHistoryEntry>) -> Seq<ChatHistoryEntryView> {
    entries.map_values(|e: ChatHistoryEntry| e@)
}

/// The exchange that a user message stands for: its own text, and the text
/// of its response, or no text where it has no response.
pub open spec fn entry_of(row: MessageRecordView) -> ChatHistoryEntryView {
    ChatHistoryEntryView {
        human: row.text,
        ai: match row.response_text {
            Some(t) => t,
            None => Seq::empty(),
        },
    }
}

/// The row from which the `i`-th entry of the history is made, where `rows`
/// came newest first: the `i`-th from the end.
pub open spec fn history_source(rows: Seq<MessageRecordView>, i: int) -> MessageRecordView {
    rows[rows.len() - 1 - i]
}

/// The history for rows that came newest first: the same exchanges, the
/// other way round.
pub open spec fn spec_chat_history(rows: Seq<MessageRecordView>) -> Seq<ChatHistoryEntryView> {
    Seq::new(rows.len(), |i: int| entry_of(history_source(rows, i)))
}

/// Whether the rows come newest first.
pub open spec fn newest_first(rows: Seq<MessageRecordView>) -> bool {
    forall|i: int, j: int|
        0 <= i < j < rows.len() ==> rows[i].date_created >= rows[j].date_created
}

/// The history is in the order of time: of two entries, the earlier one is
/// made from the message that was created first, whenever the rows came
/// newest first. And the history is the reverse of the rows.
pub proof fn lemma_history_is_chronological(rows: Seq<MessageRecordView>)
    requires
        newest_first(rows),
    ensures
        spec_chat_history(rows).len() == rows.len(),
        spec_chat_history(rows) == rows.reverse().map_values(|r: MessageRecordView| entry_of(r)),
        forall|i: int|
            0 <= i < rows.len() ==> #[trigger] spec_chat_history(rows)[i] == entry_of(
                history_source(rows, i),
            ),
        forall|i: int, j: int|
            0 <= i < j < rows.len() ==> history_source(rows, i).date_created <= history_source(
                rows,
                j,
            ).date_created,
{
    assert(spec_chat_history(rows) =~= rows.reverse().map_values(
        |r: MessageRecordView| entry_of(r),
    ));
}

/// The JSON object of one exchange, where `human_json` and `ai_json` are its
/// two texts as JSON strings.
pub open spec fn spec_entry_json_of(human_json: Seq<char>, ai_json: Seq<char>) -> Seq<char> {
    "{\"HUMAN\":"@ + human_json + ",\"AI\":"@ + ai_json + "}"@
}

/// One exchange as a JSON object.
pub open spec fn spec_entry_json(e: ChatHistoryEntryView) -> Seq<char> {
    spec_entry_json_of(json_string(e.human), json_string(e.ai))
}

/// The texts, with commas between them.
pub open spec fn spec_joined(items: Seq<Seq<char>>) -> Seq<char>
    decreases items.len(),
{
    if items.len() == 0 {
        Seq::empty()
    } else if items.len() == 1 {
        items[0]
    } else {
        spec_joined(items.drop_last()) + ","@ + items.last()
    }
}

/// The JSON array whose items are the texts `items`, each a JSON value.
pub open spec fn spec_array_json(items: Seq<Seq<char>>) -> Seq<char> {
    "["@ + spec_joined(items) + "]"@
}

/// The exchanges as JSON objects.
pub open spec fn spec_entries_json(entries: Seq<ChatHistoryEntryView>) -> Seq<Seq<char>> {
    entries.map_values(|e: ChatHistoryEntryView| spec_entry_json(e))
}

/// The history as a JSON array of objects.
pub open spec fn spec_history_json(entries: Seq<ChatHistoryEntryView>) -> Seq<char> {
    spec_array_json(spec_entries_json(entries))
}

/// The texts of a list.
pub open spec fn texts_view(items: Seq<String>) -> Seq<Seq<char>> {
    items.map_values(|s: String| s@)
}

/// Whether the exchange errored: an error text was captured, or the run
/// failed.
pub open spec fn errored(state: ReplyTaskStateView, outcome: TaskStatus) -> bool {
    state.response_error is Some || outcome == TaskStatus::Failed
}

/// The text that finish writes into the response message. Where an error
/// text was captured it is that text as it stands, whether or not an answer
/// came with it. Where the run failed and no error text was captured, it is
/// the failure text. Otherwise it is the answer, or nothing where there is
/// none.
pub open spec fn spec_final_text(state: ReplyTaskStateView, outcome: TaskStatus) -> Seq<char> {
    if errored(state, outcome) {
        match state.response_error {
            Some(e) => e,
            None => FAILURE_TEXT@,
        }
    } else {
        match state.response_text {
            Some(t) => t,
            None => Seq::empty(),
        }
    }
}

/// The status in which finish leaves both messages: errored exactly where
/// the exchange errored.
pub open spec fn spec_final_status(state: ReplyTaskStateView, outcome: TaskStatus) -> ResponseStatus {
    ResponseStatus::spec_of_exchange(errored(state, outcome))
}

/// The history for rows that came newest first, oldest exchange first.
pub fn chat_history(newest_first: &Vec<MessageRecord>) -> (history: Vec<ChatHistoryEntry>)
    ensures
        entries_view(history@) == spec_chat_history(rows_view(newest_first@)),
{
    let n = newest_first.len();
    let mut history: Vec<ChatHistoryEntry> = Vec::new();
    let mut i: usize = 0;
    while i < n
        invariant
            n == newest_first@.len(),
            0 <= i <= n,
            history@.len() == i,
            forall|k: int|
                0 <= k < i ==> (#[trigger] history@[k])@ == entry_of(
                    history_source(rows_view(newest_first@), k),
                ),
        decreases n - i,
    {
        let row = &newest_first[n - 1 - i];
        let ai = match &row.response_text {
            Some(t) => t.clone(),
            None => String::new(),
        };
        let entry = ChatHistoryEntry { HUMAN: row.text.clone(), AI: ai };
        assert(entry@ == entry_of(history_source(rows_view(newest_first@), i as int)));
        history.push(entry);
        i = i + 1;
    }
    assert(entries_view(history@) =~= spec_chat_history(rows_view(newest_first@)));
    history
}

/// The JSON object of one exchange, where `human_json` and `ai_json` are its
/// two texts as JSON strings.
pub fn entry_json_of(human_json: &str, ai_json: &str) -> (text: String)
    ensures
        text@ == spec_entry_json_of(human_json@, ai_json@),
{
    let mut text = String::from_str("{\"HUMAN\":");
    text.append(human_json);
    text.append(",\"AI\":");
    text.append(ai_json);
    text.append("}");
    text
}

/// One exchange as a JSON object.
pub fn entry_json(entry: &ChatHistoryEntry) -> (json: Result<String, TaskError>)
    ensures
        json matches Ok(text) && text@ == spec_entry_json(entry@),
{
    let human = match json_quote(entry.HUMAN.as_str()) {
        Ok(t) => t,
        Err(_) => {
            return Err(TaskError::HistoryNotSerialized);
        },
    };
    let ai = match json_quote(entry.AI.as_str()) {
        Ok(t) => t,
        Err(_) => {
            return Err(TaskError::HistoryNotSerialized);
        },
    };
    Ok(entry_json_of(human.as_str(), ai.as_str()))
}

/// The JSON array whose items are the texts `items`, each a JSON value.
pub fn array_json(items: &Vec<String>) -> (text: String)
    ensures
        text@ == spec_array_json(texts_view(items@)),
{
    let n = items.len();
    let mut text = String::from_str("[");
    let mut i: usize = 0;
    while i < n
        invariant
            n == items@.len(),
            0 <= i <= n,
            text@ == "["@ + spec_joined(texts_view(items@).take(i as int)),
        decreases n - i,
    {
        let ghost before = texts_view(items@).take(i as int);
        let ghost after = texts_view(items@).take(i + 1);
        assert(after.drop_last() =~= before);
        assert(after.last() == items@[i as int]@);
        if i > 0 {
            text.append(",");
        }
        text.append(items[i].as_str());
        assert(text@ =~= "["@ + spec_joined(after)) by {
            if i == 0 {
                assert(after[0] == after.last());
                assert(spec_joined(before) =~= Seq::<char>::empty());
            }
        }
        i = i + 1;
    }
    assert(texts_view(items@).take(n as int) =~= texts_view(items@));
    text.append("]");
    text
}

/// The history as a JSON array of objects. Every history can be
/// serialised.
pub fn history_json(history: &Vec<ChatHistoryEntry>) -> (json: Result<String, TaskError>)
    ensures
        json matches Ok(text) && text@ == spec_history_json(entries_view(history@)),
{
    let n = history.len();
    let mut items: Vec<String> = Vec::new();
    let mut i: usize = 0;
    while i < n
        invariant
            n == history@.len(),
            0 <= i <= n,
            items@.len() == i,
            forall|k: int| 0 <= k < i ==> (#[trigger] items@[k])@ == spec_entry_json(history@[k]@),
        decreases n - i,
    {
        let item = match entry_json(&history[i]) {
            Ok(t) => t,
            Err(e) => {
                return Err(e);
            },
        };
        items.push(item);
        i = i + 1;
    }
    assert(texts_view(items@) =~= spec_entries_json(entries_view(history@)));
    Ok(array_json(&items))
}

/// Whether a row is an exchange of the space `space_id` that can serve as
/// history: a message of the user that has been answered.
pub open spec fn is_exchange(row: MessageRecordView, space_id: u128) -> bool {
    &&& row.is_user_message
    &&& row.response_status == ResponseStatus::Completed.spec_ordinal()
    &&& row.space_id == space_id
}

/// The rows that are exchanges of the space `space_id`, in their order.
pub open spec fn exchanges(rows: Seq<MessageRecordView>, space_id: u128) -> Seq<MessageRecordView>
    decreases rows.len(),
{
    if rows.len() == 0 {
        rows
    } else if is_exchange(rows.last(), space_id) {
        exchanges(rows.drop_last(), space_id).push(rows.last())
    } else {
        exchanges(rows.drop_last(), space_id)
    }
}

/// The exchanges among rows are rows, are exchanges, and keep their order.
pub proof fn lemma_exchanges(rows: Seq<MessageRecordView>, space_id: u128)
    ensures
        exchanges(rows, space_id).len() <= rows.len(),
        forall|i: int|
            0 <= i < exchanges(rows, space_id).len() ==> is_exchange(
                #[trigger] exchanges(rows, space_id)[i],
                space_id,
            ) && rows.contains(exchanges(rows, space_id)[i]),
        newest_first(rows) ==> newest_first(exchanges(rows, space_id)),
    decreases rows.len(),
{
    if rows.len() > 0 {
        let init = rows.drop_last();
        let kept = exchanges(rows, space_id);
        let before = exchanges(init, space_id);
        lemma_exchanges(init, space_id);
        assert forall|i: int| 0 <= i < kept.len() implies is_exchange(#[trigger] kept[i], space_id)
            && rows.contains(kept[i]) by {
            if i < before.len() {
                assert(kept[i] == before[i]);
                let k = choose|k: int| 0 <= k < init.len() && init[k] == before[i];
                assert(rows[k] == kept[i]);
            } else {
                assert(rows[rows.len() - 1] == kept[i]);
            }
        }
        if newest_first(rows) {
            assert(newest_first(init)) by {
                assert forall|i: int, j: int| 0 <= i < j < init.len() implies init[i].date_created
                    >= init[j].date_created by {
                    assert(init[i] == rows[i] && init[j] == rows[j]);
                }
            }
            assert forall|i: int, j: int| 0 <= i < j < kept.len() implies kept[i].date_created
                >= kept[j].date_created by {
                if j < before.len() {
                    assert(kept[i] == before[i] && kept[j] == before[j]);
                } else {
                    assert(kept[i] == before[i]);
                    let k = choose|k: int| 0 <= k < init.len() && init[k] == before[i];
                    assert(rows[k] == kept[i]);
                    assert(kept[j] == rows[rows.len() - 1]);
                }
            }
        }
    }
}

/// The rows that count as history: the newest ones, as many as the window
/// holds.
pub open spec fn within_window(newest_first: Seq<MessageRecordView>) -> Seq<MessageRecordView> {
    if newest_first.len() > HISTORY_WINDOW {
        newest_first.take(HISTORY_WINDOW as int)
    } else {
        newest_first
    }
}

/// The history that goes with a question in the space `space_id`, from the
/// rows that the store gave, newest first: the exchanges of the space among
/// them, no more than the window holds, the newest ones, oldest first.
pub open spec fn spec_history(newest_first: Seq<MessageRecordView>, space_id: u128) -> Seq<
    ChatHistoryEntryView,
> {
    spec_chat_history(within_window(exchanges(newest_first, space_id)))
}

/// What holds of the history that goes with every question: it holds no
/// more exchanges than the window; each of its entries is made from a
/// message of the user in that space that has been answered, and from no
/// other row; and where the rows came newest first, of two entries the
/// earlier one is made from the message that was created first.
pub proof fn lemma_history_of_the_space(rows: Seq<MessageRecordView>, space_id: u128)
    ensures
        ({
            let kept = within_window(exchanges(rows, space_id));
            let history = spec_history(rows, space_id);
            &&& history.len() == kept.len()
            &&& history.len() <= HISTORY_WINDOW
            &&& forall|i: int|
                0 <= i < history.len() ==> #[trigger] history[i] == entry_of(
                    history_source(kept, i),
                ) && is_exchange(history_source(kept, i), space_id) && rows.contains(
                    history_source(kept, i),
                )
            &&& newest_first(rows) ==> forall|i: int, j: int|
                0 <= i < j < history.len() ==> history_source(kept, i).date_created
                    <= history_source(kept, j).date_created
        }),
{
    let all = exchanges(rows, space_id);
    let kept = within_window(all);
    lemma_exchanges(rows, space_id);
    assert forall|i: int| 0 <= i < kept.len() implies is_exchange(#[trigger] kept[i], space_id)
        && rows.contains(kept[i]) && kept[i] == all[i] by {
        assert(kept[i] == all[i]);
    }
    if newest_first(rows) {
        assert(newest_first(kept)) by {
            assert forall|i: int, j: int| 0 <= i < j < kept.len() implies kept[i].date_created
                >= kept[j].date_created by {
                assert(kept[i] == all[i] && kept[j] == all[j]);
            }
        }
        lemma_history_is_chronological(kept);
    }
    let history = spec_history(rows, space_id);
    assert forall|i: int| 0 <= i < history.len() implies #[trigger] history[i] == entry_of(
        history_source(kept, i),
    ) && is_exchange(history_source(kept, i), space_id) && rows.contains(
        history_source(kept, i),
    ) by {
        assert(history_source(kept, i) == kept[kept.len() - 1 - i]);
    }
}

/// The request for the answer service: the question with the history of the
/// space, and where the vector index of the space lies.
pub open spec fn spec_ask_request(
    spaces_dir: Seq<char>,
    space_id: u128,
    question: Seq<char>,
    newest_first: Seq<MessageRecordView>,
) -> AskRequestView {
    AskRequestView {
        vector_db_path: spec_vector_db_path(spaces_dir, space_id),
        question,
        chat_history: spec_history_json(spec_history(newest_first, space_id)),
    }
}

/// The exchanges of the space among the rows, no more than the window
/// holds.
pub fn history_rows(rows: &Vec<MessageRecord>, space_id: u128) -> (kept: Vec<MessageRecord>)
    ensures
        rows_view(kept@) == within_window(exchanges(rows_view(rows@), space_id)),
{
    let n = rows.len();
    let mut kept: Vec<MessageRecord> = Vec::new();
    let mut i: usize = 0;
    assert(rows_view(rows@).take(0) =~= Seq::<MessageRecordView>::empty());
    assert(rows_view(kept@) =~= Seq::<MessageRecordView>::empty());
    while i < n
        invariant
            n == rows@.len(),
            0 <= i <= n,
            rows_view(kept@) == exchanges(rows_view(rows@).take(i as int), space_id),
        decreases n - i,
    {
        let ghost before = rows_view(kept@);
        assert(rows_view(rows@).take(i + 1).drop_last() =~= rows_view(rows@).take(i as int));
        assert(rows_view(rows@).take(i + 1).last() == rows@[i as int]@);
        let row = &rows[i];
        if row.is_user_message && row.response_status == ResponseStatus::Completed.ordinal()
            && row.space_id == space_id {
            let copy = row.clone();
            kept.push(copy);
            assert(rows_view(kept@) =~= before.push(copy@));
        }
        i = i + 1;
    }
    assert(rows_view(rows@).take(n as int) =~= rows_view(rows@));
    let ghost all = rows_view(kept@);
    if kept.len() > 10 {
        kept.truncate(10);
        assert(rows_view(kept@) =~= all.take(10));
    }
    kept
}

/// The response message that setup creates for the user message
/// `message_id`: a placeholder in the status `Generating`.
pub open spec fn spec_new_response(
    id: u128,
    space_id: u128,
    message_id: u128,
    task_id: u128,
) -> NewMessageView {
    NewMessageView {
        id,
        id_str: id_text(id),
        text: placeholder_text(),
        space_id,
        is_user_message: false,
        response_status: ResponseStatus::Generating.spec_ordinal(),
        user_message_id: message_id,
        task_id,
    }
}

/// How one turn of setup relates the state before it, the reply and the
/// identity `fresh` at hand to the state after it and to what is asked next.
///
/// Setup links the task to the user message, then creates the response
/// message under the identity `fresh`, then leaves the scratch state.
pub open spec fn setup_turn(
    space_id: u128,
    task_id: u128,
    pre: TaskState<ReplyTask>,
    reply: Option<ReplyReply>,
    fresh: u128,
    post: TaskState<ReplyTask>,
    step: Step<ReplyRequest>,
) -> bool {
    &&& post.info == pre.info
    &&& match reply {
        None => {
            &&& step_view(step) == ReplyStepView::Ask(
                ReplyRequestView::AttachTask { message_id: pre.info.message_id, task_id },
            )
            &&& post.cursor == 1
            &&& post.data == pre.data
        },
        Some(ReplyReply::Stored) if pre.cursor == 1 => {
            &&& step_view(step) == ReplyStepView::Ask(
                ReplyRequestView::CreateResponse(
                    spec_new_response(fresh, space_id, pre.info.message_id, task_id),
                ),
            )
            &&& post.cursor == 2
            &&& post.data == pre.data
        },
        Some(ReplyReply::Created(row)) if pre.cursor == 2 => {
            &&& step is Done
            &&& post.cursor == 3
            &&& data_view(post.data) == Some(
                ReplyTaskStateView {
                    message_id: pre.info.message_id,
                    response_message_id: row.id,
                    message_text: pre.info.message_text@,
                    response_text: None,
                    response_error: None,
                },
            )
        },
        Some(ReplyReply::StoreFailed) => {
            &&& step == Step::<ReplyRequest>::Failed(TaskError::Store)
            &&& post.cursor == pre.cursor
            &&& post.data == pre.data
        },
        _ => {
            &&& step == Step::<ReplyRequest>::Failed(TaskError::OutOfOrder)
            &&& post.cursor == pre.cursor
            &&& post.data == pre.data
        },
    }
}

/// How one turn of run relates the state before it and the reply to the
/// state after it and to what is asked next.
///
/// Run asks for the history of the space, sends the question with it to the
/// answer service, and captures what comes back: the answer and the error
/// text of the service, or the text of the error where the service could
/// not be reached or understood. Where the service answered, the run ends
/// normally; where it could not be reached or understood, the run fails,
/// with the error text captured all the same. Either way finish goes on
/// from what was captured.
pub open spec fn run_turn(
    space_id: u128,
    pre: TaskState<ReplyTask>,
    reply: Option<ReplyReply>,
    post: TaskState<ReplyTask>,
    step: Step<ReplyRequest>,
) -> bool {
    &&& post.info == pre.info
    &&& match pre.data {
        None => {
            &&& step == Step::<ReplyRequest>::Failed(TaskError::MissingData)
            &&& post.cursor == pre.cursor
            &&& post.data is None
        },
        Some(data) => match reply {
            None => {
                &&& step_view(step) == ReplyStepView::Ask(
                    ReplyRequestView::Context {
                        space_id,
                        response_status: ResponseStatus::Completed.spec_ordinal(),
                        limit: HISTORY_WINDOW,
                    },
                )
                &&& post.cursor == 1
                &&& post.data == pre.data
            },
            Some(ReplyReply::Context { spaces_dir, newest_first }) if pre.cursor == 1 => {
                &&& post.data == pre.data
                &&& step_view(step) == ReplyStepView::Ask(
                    ReplyRequestView::PostAsk(
                        spec_ask_request(
                            spaces_dir@,
                            space_id,
                            data.message_text@,
                            rows_view(newest_first@),
                        ),
                    ),
                )
                &&& post.cursor == 2
            },
            Some(ReplyReply::Answer(answer)) if pre.cursor == 2 => {
                &&& step is Done
                &&& post.cursor == 3
                &&& data_view(post.data) == Some(
                    answered(data@, text_view(answer.result), text_view(answer.response_error)),
                )
            },
            Some(ReplyReply::NotSent(error)) if pre.cursor == 2 => {
                &&& step == Step::<ReplyRequest>::Failed(TaskError::AskNotSent)
                &&& post.cursor == 3
                &&& data_view(post.data) == Some(
                    answered(data@, data@.response_text, Some(error@)),
                )
            },
            Some(ReplyReply::NotParsed(error)) if pre.cursor == 2 => {
                &&& step == Step::<ReplyRequest>::Failed(TaskError::AskNotParsed)
                &&& post.cursor == 3
                &&& data_view(post.data) == Some(
                    answered(data@, data@.response_text, Some(error@)),
                )
            },
            Some(other) => {
                &&& step == Step::<ReplyRequest>::Failed(
                    match other {
                        ReplyReply::StoreFailed => TaskError::Store,
                        _ => TaskError::OutOfOrder,
                    },
                )
                &&& post.cursor == pre.cursor
                &&& post.data == pre.data
            },
        },
    }
}

/// The change that finish makes to the response message.
pub open spec fn spec_response_change(data: ReplyTaskStateView, outcome: TaskStatus) -> MessageChangeView {
    MessageChangeView {
        id: data.response_message_id,
        text: Some(spec_final_text(data, outcome)),
        response_status: spec_final_status(data, outcome).spec_ordinal(),
    }
}

/// The change that finish makes to the user message.
pub open spec fn spec_question_change(data: ReplyTaskStateView, outcome: TaskStatus) -> MessageChangeView {
    MessageChangeView {
        id: data.message_id,
        text: None,
        response_status: spec_final_status(data, outcome).spec_ordinal(),
    }
}

/// The scratch state once the answer service has answered with `result`
/// and `error`.
pub open spec fn answered(
    data: ReplyTaskStateView,
    result: Option<Seq<char>>,
    error: Option<Seq<char>>,
) -> ReplyTaskStateView {
    ReplyTaskStateView { response_text: result, response_error: error, ..data }
}

/// Whatever comes of the run, the user gets to see it.
///
/// An answer without an error text, after a run that did not fail, ends
/// both messages as completed, with the answer as text of the response. An
/// error text, or a run that failed, ends both as errored: with the error
/// text that was captured, as it stands, even where an answer came with it;
/// or, where none was captured, with the failure text. The response is
/// never left as being generated.
pub proof fn lemma_every_answer_is_shown(
    data: ReplyTaskStateView,
    result: Option<Seq<char>>,
    error: Option<Seq<char>>,
    outcome: TaskStatus,
)
    ensures
        ({
            let end = answered(data, result, error);
            let response = spec_response_change(end, outcome);
            let question = spec_question_change(end, outcome);
            let failed = error is Some || outcome == TaskStatus::Failed;
            &&& response.id == data.response_message_id
            &&& question.id == data.message_id
            &&& question.text is None
            &&& response.response_status == question.response_status
            &&& !failed ==> response.response_status == ResponseStatus::Completed.spec_ordinal()
            &&& failed ==> response.response_status == ResponseStatus::Errored.spec_ordinal()
            &&& error is Some ==> response.text == error
            &&& error is None && outcome == TaskStatus::Failed ==> response.text == Some(
                FAILURE_TEXT@,
            ) && FAILURE_TEXT@.len() > 0
            &&& !failed && result is Some ==> response.text == result
            &&& !failed && result is None ==> response.text == Some(Seq::<char>::empty())
            &&& response.response_status != ResponseStatus::Generating.spec_ordinal()
        }),
{
    reveal_strlit("Failed to generate response");
}

/// How one turn of finish relates the state before it and the reply to the
/// state after it and to what is asked next.
///
/// Finish writes the text to show and the final status into the response
/// message, then the final status into the user message. Both go by what
/// the run captured and by the status that it left.
pub open spec fn finish_turn(
    pre: TaskState<ReplyTask>,
    outcome: TaskStatus,
    reply: Option<ReplyReply>,
    post: TaskState<ReplyTask>,
    step: Step<ReplyRequest>,
) -> bool {
    &&& post.info == pre.info
    &&& post.data == pre.data
    &&& match pre.data {
        None => {
            &&& step == Step::<ReplyRequest>::Failed(TaskError::MissingData)
            &&& post.cursor == pre.cursor
        },
        Some(data) => match reply {
            None => {
                &&& step_view(step) == ReplyStepView::Ask(
                    ReplyRequestView::UpdateMessage(spec_response_change(data@, outcome)),
                )
                &&& post.cursor == 1
            },
            Some(ReplyReply::Stored) if pre.cursor == 1 => {
                &&& step_view(step) == ReplyStepView::Ask(
                    ReplyRequestView::UpdateMessage(spec_question_change(data@, outcome)),
                )
                &&& post.cursor == 2
            },
            Some(ReplyReply::Stored) if pre.cursor == 2 => {
                &&& step is Done
                &&& post.cursor == 3
            },
            Some(ReplyReply::StoreFailed) => {
                &&& step == Step::<ReplyRequest>::Failed(TaskError::Store)
                &&& post.cursor == pre.cursor
            },
            _ => {
                &&& step == Step::<ReplyRequest>::Failed(TaskError::OutOfOrder)
                &&& post.cursor == pre.cursor
            },
        },
    }
}

impl ReplyTask {
    /// One turn of setup, with the identity `fresh` for the response
    /// message.
    pub fn setup_with_id(
        &self,
        space_id: u128,
        task_id: u128,
        task_info: &mut TaskState<ReplyTask>,
        reply: Option<ReplyReply>,
        fresh: u128,
    ) -> (step: Step<ReplyRequest>)
        ensures
            setup_turn(space_id, task_id, *old(task_info), reply, fresh, *final(task_info), step),
    {
        match reply {
            None => {
                task_info.cursor = 1;
                Step::Ask(
                    ReplyRequest::AttachTask { message_id: task_info.info.message_id, task_id },
                )
            },
            Some(ReplyReply::Stored) => {
                if task_info.cursor == 1 {
                    task_info.cursor = 2;
                    Step::Ask(
                        ReplyRequest::CreateResponse(
                            NewMessage {
                                id: fresh,
                                id_str: u2s(fresh),
                                text: "Generating response...".to_owned(),
                                space_id,
                                is_user_message: false,
                                response_status: ResponseStatus::Generating.ordinal(),
                                user_message_id: task_info.info.message_id,
                                task_id,
                            },
                        ),
                    )
                } else {
                    Step::Failed(TaskError::OutOfOrder)
                }
            },
            Some(ReplyReply::Created(row)) => {
                if task_info.cursor == 2 {
                    task_info.cursor = 3;
                    task_info.data = Some(
                        ReplyTaskState {
                            message_id: task_info.info.message_id,
                            response_message_id: row.id,
                            message_text: task_info.info.message_text.clone(),
                            response_text: None,
                            response_error: None,
                        },
                    );
                    Step::Done
                } else {
                    Step::Failed(TaskError::OutOfOrder)
                }
            },
            Some(ReplyReply::StoreFailed) => Step::Failed(TaskError::Store),
            Some(_) => Step::Failed(TaskError::OutOfOrder),
        }
    }

    /// The turn of run that follows the arrival of the history: sends the
    /// question, or fails where the history could not be serialised.
    pub fn post_ask(
        task_info: &mut TaskState<ReplyTask>,
        vector_db_path: String,
        question: String,
        history: Result<String, TaskError>,
    ) -> (step: Step<ReplyRequest>)
        ensures
            final(task_info).info == old(task_info).info,
            final(task_info).data == old(task_info).data,
            match history {
                Ok(json) => {
                    &&& step_view(step) == ReplyStepView::Ask(
                        ReplyRequestView::PostAsk(
                            AskRequestView {
                                vector_db_path: vector_db_path@,
                                question: question@,
                                chat_history: json@,
                            },
                        ),
                    )
                    &&& final(task_info).cursor == 2
                },
                Err(e) => {
                    &&& step == Step::<ReplyRequest>::Failed(e)
                    &&& final(task_info).cursor == old(task_info).cursor
                },
            },
    {
        match history {
            Ok(json) => {
                task_info.cursor = 2;
                Step::Ask(
                    ReplyRequest::PostAsk(
                        AskRequest { vector_db_path, question, chat_history: json },
                    ),
                )
            },
            Err(e) => Step::Failed(e),
        }
    }

    /// Whether the exchange errored.
    pub fn has_errored(data: &ReplyTaskState, outcome: TaskStatus) -> (failed: bool)
        ensures
            failed == errored(data@, outcome),
    {
        let run_failed = match outcome {
            TaskStatus::Failed => true,
            _ => false,
        };
        data.response_error.is_some() || run_failed
    }

    /// The text that finish writes into the response message.
    pub fn final_text(data: &ReplyTaskState, outcome: TaskStatus) -> (text: String)
        ensures
            text@ == spec_final_text(data@, outcome),
    {
        if Self::has_errored(data, outcome) {
            match &data.response_error {
                Some(e) => e.clone(),
                None => FAILURE_TEXT.to_owned(),
            }
        } else {
            match &data.response_text {
                Some(t) => t.clone(),
                None => String::new(),
            }
        }
    }

    /// The status in which finish leaves both messages.
    pub fn final_status(data: &ReplyTaskState, outcome: TaskStatus) -> (status: ResponseStatus)
        ensures
            status == spec_final_status(data@, outcome),
    {
        ResponseStatus::of_exchange(Self::has_errored(data, outcome))
    }
}

impl TaskExec for ReplyTask {
    type Info = ReplyTaskInfo;

    type Data = ReplyTaskState;

    type Request = ReplyRequest;

    type Reply = ReplyReply;

    fn new() -> Self {
        ReplyTask {  }
    }

    fn setup(
        &self,
        space_id: u128,
        task_id: u128,
        task_info: &mut TaskState<ReplyTask>,
        reply: Option<ReplyReply>,
    ) -> (step: Step<ReplyRequest>)
        ensures
            exists|fresh: u128|
                is_random_id(fresh) && #[trigger] setup_turn(
                    space_id,
                    task_id,
                    *old(task_info),
                    reply,
                    fresh,
                    *final(task_info),
                    step,
                ),
    {
        let fresh = new_id();
        let step = self.setup_with_id(space_id, task_id, task_info, reply, fresh);
        assert(is_random_id(fresh) && setup_turn(
            space_id,
            task_id,
            *old(task_info),
            reply,
            fresh,
            *task_info,
            step,
        ));
        step
    }

    fn run(
        &self,
        space_id: u128,
        task_id: u128,
        task_info: &mut TaskState<ReplyTask>,
        reply: Option<ReplyReply>,
    ) -> (step: Step<ReplyRequest>)
        ensures
            run_turn(space_id, *old(task_info), reply, *final(task_info), step),
    {
        let (message_id, response_message_id, message_text, response_text) =
            match &task_info.data {
            Some(d) => (
                d.message_id,
                d.response_message_id,
                d.message_text.clone(),
                clone_text(&d.response_text),
            ),
            None => {
                return Step::Failed(TaskError::MissingData);
            },
        };
        match reply {
            None => {
                task_info.cursor = 1;
                Step::Ask(
                    ReplyRequest::Context {
                        space_id,
                        response_status: ResponseStatus::Completed.ordinal(),
                        limit: HISTORY_WINDOW,
                    },
                )
            },
            Some(ReplyReply::Context { spaces_dir, newest_first }) => {
                if task_info.cursor == 1 {
                    let path = vector_db_path(spaces_dir.as_str(), space_id);
                    let rows = history_rows(&newest_first, space_id);
                    let history = chat_history(&rows);
                    let json = history_json(&history);
                    Self::post_ask(task_info, path, message_text, json)
                } else {
                    Step::Failed(TaskError::OutOfOrder)
                }
            },
            Some(ReplyReply::Answer(answer)) => {
                if task_info.cursor == 2 {
                    task_info.cursor = 3;
                    task_info.data = Some(
                        ReplyTaskState {
                            message_id,
                            response_message_id,
                            message_text,
                            response_text: answer.result,
                            response_error: answer.response_error,
                        },
                    );
                    Step::Done
                } else {
                    Step::Failed(TaskError::OutOfOrder)
                }
            },
            Some(ReplyReply::NotSent(error)) => {
                if task_info.cursor == 2 {
                    task_info.cursor = 3;
                    task_info.data = Some(
                        ReplyTaskState {
                            message_id,
                            response_message_id,
                            message_text,
                            response_text,
                            response_error: Some(error),
                        },
                    );
                    Step::Failed(TaskError::AskNotSent)
                } else {
                    Step::Failed(TaskError::OutOfOrder)
                }
            },
            Some(ReplyReply::NotParsed(error)) => {
                if task_info.cursor == 2 {
                    task_info.cursor = 3;
                    task_info.data = Some(
                        ReplyTaskState {
                            message_id,
                            response_message_id,
                            message_text,
                            response_text,
                            response_error: Some(error),
                        },
                    );
                    Step::Failed(TaskError::AskNotParsed)
                } else {
                    Step::Failed(TaskError::OutOfOrder)
                }
            },
            Some(ReplyReply::StoreFailed) => Step::Failed(TaskError::Store),
            Some(_) => Step::Failed(TaskError::OutOfOrder),
        }
    }

    fn finish(
        &self,
        space_id: u128,
        task_id: u128,
        task_info: &mut TaskState<ReplyTask>,
        outcome: TaskStatus,
        reply: Option<ReplyReply>,
    ) -> (step: Step<ReplyRequest>)
        ensures
            finish_turn(*old(task_info), outcome, reply, *final(task_info), step),
    {
        let (response_change, question_change) = match &task_info.data {
            None => {
                return Step::Failed(TaskError::MissingData);
            },
            Some(data) => {
                let status = Self::final_status(data, outcome).ordinal();
                (
                    MessageChange {
                        id: data.response_message_id,
                        text: Some(Self::final_text(data, outcome)),
                        response_status: status,
                    },
                    MessageChange { id: data.message_id, text: None, response_status: status },
                )
            },
        };
        match reply {
            None => {
                task_info.cursor = 1;
                Step::Ask(ReplyRequest::UpdateMessage(response_change))
            },
            Some(ReplyReply::Stored) => {
                if task_info.cursor == 1 {
                    task_info.cursor = 2;
                    Step::Ask(ReplyRequest::UpdateMessage(question_change))
                } else if task_info.cursor == 2 {
                    task_info.cursor = 3;
                    Step::Done
                } else {
                    Step::Failed(TaskError::OutOfOrder)
                }
            },
            Some(ReplyReply::StoreFailed) => Step::Failed(TaskError::Store),
            Some(_) => Step::Failed(TaskError::OutOfOrder),
        }
    }
}

impl IntoTask<ReplyTask> for ReplyTaskInfo {
    /// A new task with this input, under a fresh random identity.
    fn runnable(self) -> (task: Task<ReplyTask>)
        ensures
            is_random_id(task.id),
            task.task_info.info == self,
            task.task_info.data is None,
            task.lifecycle == Lifecycle::Created,
            task.wait is Idle,
    {
        Task::new(self)
    }
}

} // verus!
