use server::records::MessageRecord;
use server::status::TaskStatus;
use server::tasks::reply::{
    array_json, chat_history, entry_json, entry_json_of, history_json, history_rows, AskResponse,
    ChatHistoryEntry, ReplyReply,
    ReplyRequest, ReplyTask, ReplyTaskInfo, ReplyTaskState, ASK_URL, FAILURE_TEXT,
    HISTORY_WINDOW,
};
use server::tasks::{DTask, IntoTask, Lifecycle, Step, TaskError, TaskExec, TaskState};

const SPACE: u128 = 0xa1a2a3a4b1b2c1c2d1d2d3d4d5d6d7d8;
const TASK: u128 = 2;
const QUESTION: u128 = 3;
const RESPONSE: u128 = 4;

fn state(text: &str) -> TaskState<ReplyTask> {
    TaskState {
        info: ReplyTaskInfo { message_id: QUESTION, message_text: text.to_string() },
        data: None,
        cursor: 0,
    }
}

fn message(id: u128, text: &str, created: i64, response: Option<&str>) -> MessageRecord {
    MessageRecord {
        id,
        text: text.to_string(),
        is_user_message: true,
        response_status: 2,
        date_created: created,
        space_id: SPACE,
        response_text: response.map(|r| r.to_string()),
    }
}

fn entry(human: &str, ai: &str) -> ChatHistoryEntry {
    ChatHistoryEntry { HUMAN: human.to_string(), AI: ai.to_string() }
}

fn failed(step: Step<ReplyRequest>) -> TaskError {
    match step {
        Step::Failed(e) => e,
        _ => panic!("the step did not fail"),
    }
}

fn set_up(text: &str) -> TaskState<ReplyTask> {
    let kind = ReplyTask::new();
    let mut st = state(text);
    kind.setup_with_id(SPACE, TASK, &mut st, None, RESPONSE);
    kind.setup_with_id(SPACE, TASK, &mut st, Some(ReplyReply::Stored), RESPONSE);
    let step = kind.setup_with_id(
        SPACE,
        TASK,
        &mut st,
        Some(ReplyReply::Created(message(RESPONSE, "Generating response...", 0, None))),
        RESPONSE,
    );
    assert!(matches!(step, Step::Done));
    st
}

fn answer(st: &mut TaskState<ReplyTask>, response: AskResponse) {
    let kind = ReplyTask::new();
    kind.run(SPACE, TASK, st, None);
    kind.run(
        SPACE,
        TASK,
        st,
        Some(ReplyReply::Context { spaces_dir: "/spaces".to_string(), newest_first: Vec::new() }),
    );
    let step = kind.run(SPACE, TASK, st, Some(ReplyReply::Answer(response)));
    assert!(matches!(step, Step::Done));
}

#[test]
fn reply_constants() {
    assert_eq!(ASK_URL, "http://localhost:5001/ask");
    assert_eq!(HISTORY_WINDOW, 10);
}

#[test]
fn reply_history_is_chronological() {
    let rows = vec![
        message(13, "third", 3000, Some("c")),
        message(12, "second", 2000, Some("b")),
        message(11, "first", 1000, Some("a")),
    ];
    let history = chat_history(&rows);
    let humans: Vec<&str> = history.iter().map(|e| e.HUMAN.as_str()).collect();
    let ais: Vec<&str> = history.iter().map(|e| e.AI.as_str()).collect();
    assert_eq!(humans, vec!["first", "second", "third"]);
    assert_eq!(ais, vec!["a", "b", "c"]);
}

#[test]
fn reply_history_of_a_message_without_response_has_no_answer() {
    let history = chat_history(&vec![message(11, "hello?", 1, None)]);
    assert_eq!(history.len(), 1);
    assert_eq!(history[0].HUMAN, "hello?");
    assert_eq!(history[0].AI, "");
    assert!(chat_history(&Vec::new()).is_empty());
}

#[test]
fn reply_history_as_json() {
    let history = vec![
        entry("Hello", "Hi! How can I assist you today?"),
        entry("Say that in german please", ""),
    ];
    assert_eq!(
        history_json(&history),
        Ok("[{\"HUMAN\":\"Hello\",\"AI\":\"Hi! How can I assist you today?\"},{\"HUMAN\":\"Say that in german please\",\"AI\":\"\"}]".to_string())
    );
}

#[test]
fn reply_history_as_json_without_entries_and_with_one() {
    assert_eq!(history_json(&Vec::new()), Ok("[]".to_string()));
    assert_eq!(
        history_json(&vec![entry("a", "b")]),
        Ok("[{\"HUMAN\":\"a\",\"AI\":\"b\"}]".to_string())
    );
}

#[test]
fn reply_history_as_json_escapes_its_texts() {
    let history = vec![entry("say \"hi\"\n", "back\\slash\ttab é")];
    assert_eq!(
        history_json(&history),
        Ok("[{\"HUMAN\":\"say \\\"hi\\\"\\n\",\"AI\":\"back\\\\slash\\ttab é\"}]".to_string())
    );
}

#[test]
fn reply_setup_links_the_task_and_creates_the_response() {
    let kind = ReplyTask::new();
    let mut st = state("What is Jensen's inequality?");
    match kind.setup_with_id(SPACE, TASK, &mut st, None, RESPONSE) {
        Step::Ask(ReplyRequest::AttachTask { message_id, task_id }) => {
            assert_eq!(message_id, QUESTION);
            assert_eq!(task_id, TASK);
        }
        _ => panic!("setup did not link the task"),
    }
    match kind.setup_with_id(SPACE, TASK, &mut st, Some(ReplyReply::Stored), RESPONSE) {
        Step::Ask(ReplyRequest::CreateResponse(m)) => {
            assert_eq!(m.id, RESPONSE);
            assert_eq!(m.id_str, "00000000-0000-0000-0000-000000000004");
            assert_eq!(m.text, "Generating response...");
            assert_eq!(m.space_id, SPACE);
            assert!(!m.is_user_message);
            assert_eq!(m.response_status, 1);
            assert_eq!(m.user_message_id, QUESTION);
            assert_eq!(m.task_id, TASK);
        }
        _ => panic!("setup did not create the response"),
    }
    assert!(st.data.is_none());
    let step = kind.setup_with_id(
        SPACE,
        TASK,
        &mut st,
        Some(ReplyReply::Created(message(RESPONSE, "Generating response...", 0, None))),
        0,
    );
    assert!(matches!(step, Step::Done));
    let data = st.data.expect("setup left no state");
    assert_eq!(data.message_id, QUESTION);
    assert_eq!(data.response_message_id, RESPONSE);
    assert_eq!(data.message_text, "What is Jensen's inequality?");
    assert_eq!(data.response_text, None);
    assert_eq!(data.response_error, None);
}

#[test]
fn reply_setup_fails_with_the_store_and_out_of_order() {
    let kind = ReplyTask::new();
    let mut st = state("q");
    kind.setup(SPACE, TASK, &mut st, None);
    assert_eq!(
        failed(kind.setup(SPACE, TASK, &mut st, Some(ReplyReply::StoreFailed))),
        TaskError::Store
    );
    let mut st = state("q");
    assert_eq!(
        failed(kind.setup(SPACE, TASK, &mut st, Some(ReplyReply::Stored))),
        TaskError::OutOfOrder
    );
    assert_eq!(
        failed(kind.setup(SPACE, TASK, &mut st, Some(ReplyReply::NotSent(String::new())))),
        TaskError::OutOfOrder
    );
}

#[test]
fn reply_run_needs_the_state_of_setup() {
    let kind = ReplyTask::new();
    let mut st = state("q");
    assert_eq!(failed(kind.run(SPACE, TASK, &mut st, None)), TaskError::MissingData);
}

#[test]
fn reply_run_asks_for_the_last_ten_completed_exchanges() {
    let kind = ReplyTask::new();
    let mut st = set_up("q");
    match kind.run(SPACE, TASK, &mut st, None) {
        Step::Ask(ReplyRequest::Context { space_id, response_status, limit }) => {
            assert_eq!(space_id, SPACE);
            assert_eq!(response_status, 2);
            assert_eq!(limit, 10);
        }
        _ => panic!("run did not ask for the history"),
    }
}

#[test]
fn reply_run_sends_the_question_with_the_history_in_order() {
    let kind = ReplyTask::new();
    let mut st = set_up("What is Jensen's inequality?");
    kind.run(SPACE, TASK, &mut st, None);
    let rows = vec![
        message(13, "t3", 3000, Some("a3")),
        message(12, "t2", 2000, None),
        message(11, "t1", 1000, Some("a1")),
    ];
    let step = kind.run(
        SPACE,
        TASK,
        &mut st,
        Some(ReplyReply::Context { spaces_dir: "/spaces".to_string(), newest_first: rows }),
    );
    match step {
        Step::Ask(ReplyRequest::PostAsk(request)) => {
            assert_eq!(
                request.vector_db_path,
                "/spaces/a1a2a3a4-b1b2-c1c2-d1d2-d3d4d5d6d7d8/vector_db"
            );
            assert_eq!(request.question, "What is Jensen's inequality?");
            assert_eq!(
                request.chat_history,
                "[{\"HUMAN\":\"t1\",\"AI\":\"a1\"},{\"HUMAN\":\"t2\",\"AI\":\"\"},{\"HUMAN\":\"t3\",\"AI\":\"a3\"}]"
            );
        }
        _ => panic!("run did not send the question"),
    }
}

#[test]
fn reply_run_captures_the_answer() {
    let mut st = set_up("q");
    answer(
        &mut st,
        AskResponse { success: true, response_error: None, result: Some("...".to_string()) },
    );
    let data = st.data.expect("the state is gone");
    assert_eq!(data.response_text, Some("...".to_string()));
    assert_eq!(data.response_error, None);
    assert_eq!(data.message_id, QUESTION);
    assert_eq!(data.response_message_id, RESPONSE);
    assert_eq!(data.message_text, "q");
}

#[test]
fn reply_run_captures_the_error_text() {
    let mut st = set_up("q");
    answer(
        &mut st,
        AskResponse { success: false, response_error: Some("no index".to_string()), result: None },
    );
    let data = st.data.expect("the state is gone");
    assert_eq!(data.response_text, None);
    assert_eq!(data.response_error, Some("no index".to_string()));
}

fn context() -> ReplyReply {
    ReplyReply::Context { spaces_dir: "/spaces".to_string(), newest_first: Vec::new() }
}

#[test]
fn reply_run_fails_and_captures_the_error_where_the_service_cannot_be_reached_or_read() {
    let kind = ReplyTask::new();
    for (reply, error) in [
        (ReplyReply::NotSent("connection refused".to_string()), TaskError::AskNotSent),
        (ReplyReply::NotParsed("connection refused".to_string()), TaskError::AskNotParsed),
    ] {
        let mut st = set_up("q");
        kind.run(SPACE, TASK, &mut st, None);
        kind.run(SPACE, TASK, &mut st, Some(context()));
        assert_eq!(failed(kind.run(SPACE, TASK, &mut st, Some(reply))), error);
        let data = st.data.expect("the state is gone");
        assert_eq!(data.response_text, None);
        assert_eq!(data.response_error, Some("connection refused".to_string()));
        assert_eq!(data.message_id, QUESTION);
        assert_eq!(data.response_message_id, RESPONSE);
        assert_eq!(data.message_text, "q");
    }
}

#[test]
fn reply_run_fails_with_the_store_and_out_of_order() {
    let kind = ReplyTask::new();
    for (reply, error) in [
        (ReplyReply::StoreFailed, TaskError::Store),
        (ReplyReply::Stored, TaskError::OutOfOrder),
        (ReplyReply::NotSent("early".to_string()), TaskError::OutOfOrder),
        (ReplyReply::NotParsed("early".to_string()), TaskError::OutOfOrder),
    ] {
        let mut st = set_up("q");
        kind.run(SPACE, TASK, &mut st, None);
        assert_eq!(failed(kind.run(SPACE, TASK, &mut st, Some(reply))), error);
        let data = st.data.expect("the state is gone");
        assert_eq!(data.response_text, None);
        assert_eq!(data.response_error, None);
    }
}

#[test]
fn reply_run_refuses_an_answer_before_the_question() {
    let kind = ReplyTask::new();
    let mut st = set_up("q");
    kind.run(SPACE, TASK, &mut st, None);
    let reply = ReplyReply::Answer(AskResponse {
        success: true,
        response_error: None,
        result: Some("x".to_string()),
    });
    assert_eq!(failed(kind.run(SPACE, TASK, &mut st, Some(reply))), TaskError::OutOfOrder);
}

fn finish(st: &mut TaskState<ReplyTask>, outcome: TaskStatus) -> Vec<(u128, Option<String>, i32)> {
    let kind = ReplyTask::new();
    let mut changes = Vec::new();
    let mut reply = None;
    loop {
        match kind.finish(SPACE, TASK, st, outcome, reply) {
            Step::Ask(ReplyRequest::UpdateMessage(c)) => {
                changes.push((c.id, c.text, c.response_status));
                reply = Some(ReplyReply::Stored);
            }
            Step::Done => return changes,
            _ => panic!("finish went wrong"),
        }
    }
}

#[test]
fn reply_answered_question_ends_completed() {
    let mut st = set_up("What is Jensen's inequality?");
    answer(
        &mut st,
        AskResponse { success: true, response_error: None, result: Some("...".to_string()) },
    );
    let changes = finish(&mut st, TaskStatus::Succeeded);
    assert_eq!(
        changes,
        vec![(RESPONSE, Some("...".to_string()), 2), (QUESTION, None, 2)]
    );
}

#[test]
fn reply_refused_question_ends_errored_with_the_error_text() {
    let mut st = set_up("q");
    answer(
        &mut st,
        AskResponse { success: false, response_error: Some("no index".to_string()), result: None },
    );
    let changes = finish(&mut st, TaskStatus::Succeeded);
    assert_eq!(
        changes,
        vec![(RESPONSE, Some("no index".to_string()), 3), (QUESTION, None, 3)]
    );
}

#[test]
fn reply_answer_with_an_error_text_shows_the_error() {
    let mut st = set_up("q");
    answer(
        &mut st,
        AskResponse {
            success: false,
            response_error: Some("boom".to_string()),
            result: Some("partial".to_string()),
        },
    );
    let changes = finish(&mut st, TaskStatus::Succeeded);
    assert_eq!(changes[0], (RESPONSE, Some("boom".to_string()), 3));
    assert_eq!(changes[1], (QUESTION, None, 3));
}

#[test]
fn reply_service_that_is_down_ends_errored_with_the_error_text() {
    let mut st = set_up("q");
    let kind = ReplyTask::new();
    kind.run(SPACE, TASK, &mut st, None);
    kind.run(SPACE, TASK, &mut st, Some(context()));
    let step =
        kind.run(SPACE, TASK, &mut st, Some(ReplyReply::NotSent("connection refused".to_string())));
    assert_eq!(failed(step), TaskError::AskNotSent);
    let changes = finish(&mut st, TaskStatus::Failed);
    assert_eq!(
        changes,
        vec![(RESPONSE, Some("connection refused".to_string()), 3), (QUESTION, None, 3)]
    );
}

#[test]
fn reply_error_text_that_is_empty_is_written_as_it_is() {
    let mut st = set_up("q");
    let kind = ReplyTask::new();
    kind.run(SPACE, TASK, &mut st, None);
    kind.run(SPACE, TASK, &mut st, Some(context()));
    let answer = AskResponse { success: false, response_error: Some(String::new()), result: None };
    assert!(matches!(kind.run(SPACE, TASK, &mut st, Some(ReplyReply::Answer(answer))), Step::Done));
    let changes = finish(&mut st, TaskStatus::Succeeded);
    assert_eq!(changes, vec![(RESPONSE, Some(String::new()), 3), (QUESTION, None, 3)]);
}

#[test]
fn reply_run_that_failed_ends_errored_with_the_failure_text() {
    let mut st = set_up("q");
    let kind = ReplyTask::new();
    kind.run(SPACE, TASK, &mut st, None);
    kind.run(SPACE, TASK, &mut st, Some(ReplyReply::StoreFailed));
    let changes = finish(&mut st, TaskStatus::Failed);
    assert_eq!(
        changes,
        vec![
            (RESPONSE, Some("Failed to generate response".to_string()), 3),
            (QUESTION, None, 3)
        ]
    );
}

#[test]
fn reply_final_text_and_status() {
    let mut data = ReplyTaskState {
        message_id: 1,
        response_message_id: 2,
        message_text: "q".to_string(),
        response_text: None,
        response_error: None,
    };
    assert_eq!(FAILURE_TEXT, "Failed to generate response");
    assert_eq!(ReplyTask::final_text(&data, TaskStatus::Succeeded), "");
    assert_eq!(ReplyTask::final_status(&data, TaskStatus::Succeeded).ordinal(), 2);
    assert_eq!(ReplyTask::final_text(&data, TaskStatus::Pending), "");
    assert_eq!(ReplyTask::final_text(&data, TaskStatus::Failed), FAILURE_TEXT);
    assert_eq!(ReplyTask::final_status(&data, TaskStatus::Failed).ordinal(), 3);
    data.response_text = Some("answer".to_string());
    assert_eq!(ReplyTask::final_text(&data, TaskStatus::Succeeded), "answer");
    assert_eq!(ReplyTask::final_text(&data, TaskStatus::Failed), FAILURE_TEXT);
    data.response_error = Some(String::new());
    assert_eq!(ReplyTask::final_text(&data, TaskStatus::Succeeded), "");
    assert_eq!(ReplyTask::final_text(&data, TaskStatus::Failed), "");
    assert_eq!(ReplyTask::final_status(&data, TaskStatus::Succeeded).ordinal(), 3);
    data.response_error = Some("boom".to_string());
    assert_eq!(ReplyTask::final_text(&data, TaskStatus::Succeeded), "boom");
    assert_eq!(ReplyTask::final_text(&data, TaskStatus::Failed), "boom");
    assert!(ReplyTask::has_errored(&data, TaskStatus::Succeeded));
}

#[test]
fn reply_finish_needs_the_state_of_setup() {
    let kind = ReplyTask::new();
    let mut st = state("q");
    assert_eq!(
        failed(kind.finish(SPACE, TASK, &mut st, TaskStatus::Failed, None)),
        TaskError::MissingData
    );
}

#[test]
fn reply_finish_fails_with_the_store() {
    let kind = ReplyTask::new();
    let mut st = set_up("q");
    kind.finish(SPACE, TASK, &mut st, TaskStatus::Succeeded, None);
    let step =
        kind.finish(SPACE, TASK, &mut st, TaskStatus::Succeeded, Some(ReplyReply::StoreFailed));
    assert_eq!(failed(step), TaskError::Store);
}

#[test]
fn reply_question_is_sent_with_the_history_at_hand() {
    let mut st = set_up("q");
    st.cursor = 1;
    let step = ReplyTask::post_ask(
        &mut st,
        "/spaces/x/vector_db".to_string(),
        "q".to_string(),
        Ok("[]".to_string()),
    );
    match step {
        Step::Ask(ReplyRequest::PostAsk(request)) => {
            assert_eq!(request.vector_db_path, "/spaces/x/vector_db");
            assert_eq!(request.question, "q");
            assert_eq!(request.chat_history, "[]");
        }
        _ => panic!("the question was not sent"),
    }
    assert_eq!(st.cursor, 2);
}

#[test]
fn reply_question_is_not_sent_without_a_history() {
    let mut st = set_up("q");
    st.cursor = 1;
    let step = ReplyTask::post_ask(
        &mut st,
        "/spaces/x/vector_db".to_string(),
        "q".to_string(),
        Err(TaskError::HistoryNotSerialized),
    );
    assert_eq!(failed(step), TaskError::HistoryNotSerialized);
    assert_eq!(st.cursor, 1);
}

#[test]
fn reply_input_makes_a_task() {
    let task = ReplyTaskInfo { message_id: 5, message_text: "q".to_string() }.runnable();
    assert_eq!(task.lifecycle, Lifecycle::Created);
    assert_eq!(task.task_type(), "reply");
    assert_eq!(task.task_info.info.message_id, 5);
    assert!(task.task_info.data.is_none());
    assert_eq!((task.id() >> 76) & 0xf, 4);
}

#[test]
fn reply_history_holds_the_ten_newest_exchanges() {
    let kind = ReplyTask::new();
    let mut st = set_up("q");
    kind.run(SPACE, TASK, &mut st, None);
    let rows: Vec<MessageRecord> = (0..12)
        .map(|i| message(100 + i as u128, &format!("t{}", 11 - i), 1000 * (12 - i), None))
        .collect();
    let step = kind.run(
        SPACE,
        TASK,
        &mut st,
        Some(ReplyReply::Context { spaces_dir: "/spaces".to_string(), newest_first: rows }),
    );
    match step {
        Step::Ask(ReplyRequest::PostAsk(request)) => {
            let expected: Vec<String> =
                (2..12).map(|i| format!("{{\"HUMAN\":\"t{}\",\"AI\":\"\"}}", i)).collect();
            assert_eq!(request.chat_history, format!("[{}]", expected.join(",")));
        }
        _ => panic!("run did not send the question"),
    }
}

#[test]
fn reply_history_is_made_of_completed_user_messages_of_the_space() {
    let mut response = message(20, "an answer", 1500, None);
    response.is_user_message = false;
    let mut generating = message(21, "still open", 2500, None);
    generating.response_status = 1;
    let mut errored = message(22, "went wrong", 2600, None);
    errored.response_status = 3;
    let mut unanswered = message(23, "the question itself", 4000, None);
    unanswered.response_status = 0;
    let mut elsewhere = message(24, "another space", 2700, Some("x"));
    elsewhere.space_id = SPACE + 1;
    let rows = vec![
        unanswered,
        message(13, "q3", 3000, Some("a3")),
        elsewhere,
        errored,
        generating,
        message(12, "q2", 2000, Some("a2")),
        response,
        message(11, "q1", 1000, Some("a1")),
    ];
    let kept = history_rows(&rows, SPACE);
    assert_eq!(kept.iter().map(|m| m.id).collect::<Vec<_>>(), vec![13, 12, 11]);

    let kind = ReplyTask::new();
    let mut st = set_up("q4");
    kind.run(SPACE, TASK, &mut st, None);
    let step = kind.run(
        SPACE,
        TASK,
        &mut st,
        Some(ReplyReply::Context { spaces_dir: "/spaces".to_string(), newest_first: rows }),
    );
    match step {
        Step::Ask(ReplyRequest::PostAsk(request)) => {
            assert_eq!(request.question, "q4");
            assert_eq!(
                request.chat_history,
                "[{\"HUMAN\":\"q1\",\"AI\":\"a1\"},{\"HUMAN\":\"q2\",\"AI\":\"a2\"},{\"HUMAN\":\"q3\",\"AI\":\"a3\"}]"
            );
        }
        _ => panic!("run did not send the question"),
    }
}

#[test]
fn reply_entry_is_an_object_of_its_two_texts() {
    assert_eq!(entry_json_of("\"a\"", "\"b\""), "{\"HUMAN\":\"a\",\"AI\":\"b\"}");
    assert_eq!(entry_json_of("", ""), "{\"HUMAN\":,\"AI\":}");
    assert_eq!(
        entry_json(&ChatHistoryEntry { HUMAN: "say \"hi\"".to_string(), AI: "a\nb".to_string() }),
        Ok("{\"HUMAN\":\"say \\\"hi\\\"\",\"AI\":\"a\\nb\"}".to_string())
    );
}

#[test]
fn reply_array_has_commas_between_its_items() {
    assert_eq!(array_json(&Vec::new()), "[]");
    assert_eq!(array_json(&vec!["1".to_string()]), "[1]");
    assert_eq!(
        array_json(&vec!["1".to_string(), "{}".to_string(), "\"x\"".to_string()]),
        "[1,{},\"x\"]"
    );
}
