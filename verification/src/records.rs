//! The rows of the record store, as far as the task engine reads them.

use vstd::prelude::*;

verus! {

/// One row per task instance.
#[derive(Debug)]
pub struct TaskRecord {
    pub id: u128,
    /// The kind tag of the task.
    pub task_type: String,
    /// The dedup hash of the task, in decimal.
    pub hash: String,
    /// The ordinal of the task's status.
    pub status: i32,
    pub space_id: u128,
    /// The file that the task works on, once one is linked.
    pub file_id: Option<u128>,
    /// The message that the task works on, once one is linked.
    pub message_id: Option<u128>,
}

pub struct TaskRecordView {
    pub id: u128,
    pub task_type: Seq<char>,
    pub hash: Seq<char>,
    pub status: i32,
    pub space_id: u128,
    pub file_id: Option<u128>,
    pub message_id: Option<u128>,
}

impl View for TaskRecord {
    type V = TaskRecordView;

    open spec fn view(&self) -> TaskRecordView {
        TaskRecordView {
            id: self.id,
            task_type: self.task_type@,
            hash: self.hash@,
            status: self.status,
            space_id: self.space_id,
            file_id: self.file_id,
            message_id: self.message_id,
        }
    }
}

impl Clone for TaskRecord {
    fn clone(&self) -> (copy: TaskRecord)
        ensures
            copy@ == self@,
    {
        TaskRecord {
            id: self.id,
            task_type: self.task_type.clone(),
            hash: self.hash.clone(),
            status: self.status,
            space_id: self.space_id,
            file_id: self.file_id,
            message_id: self.message_id,
        }
    }
}

/// An uploaded artifact of a space.
#[derive(Debug)]
pub struct FileRecord {
    pub id: u128,
    /// Where the bytes lie, relative to the directory of the space.
    pub path: String,
    pub name: String,
    pub extension: String,
    /// Whether documents of this extension can be ingested.
    pub supported: bool,
    /// Whether the document has been ingested.
    pub learned: bool,
    pub size: i32,
    pub space_id: u128,
}

pub struct FileRecordView {
    pub id: u128,
    pub path: Seq<char>,
    pub name: Seq<char>,
    pub extension: Seq<char>,
    pub supported: bool,
    pub learned: bool,
    pub size: i32,
    pub space_id: u128,
}

impl View for FileRecord {
    type V = FileRecordView;

    open spec fn view(&self) -> FileRecordView {
        FileRecordView {
            id: self.id,
            path: self.path@,
            name: self.name@,
            extension: self.extension@,
            supported: self.supported,
            learned: self.learned,
            size: self.size,
            space_id: self.space_id,
        }
    }
}

impl Clone for FileRecord {
    fn clone(&self) -> (copy: FileRecord)
        ensures
            copy@ == self@,
    {
        FileRecord {
            id: self.id,
            path: self.path.clone(),
            name: self.name.clone(),
            extension: self.extension.clone(),
            supported: self.supported,
            learned: self.learned,
            size: self.size,
            space_id: self.space_id,
        }
    }
}

/// One turn of a conversation.
#[derive(Debug)]
pub struct MessageRecord {
    pub id: u128,
    pub text: String,
    /// Whether a user wrote the message; otherwise it is a response.
    pub is_user_message: bool,
    /// The ordinal of the message's response status.
    pub response_status: i32,
    /// When the message was created, in milliseconds since the epoch.
    pub date_created: i64,
    pub space_id: u128,
    /// The text of the response paired with this message, if there is one.
    pub response_text: Option<String>,
}

pub struct MessageRecordView {
    pub id: u128,
    pub text: Seq<char>,
    pub is_user_message: bool,
    pub response_status: i32,
    pub date_created: i64,
    pub space_id: u128,
    pub response_text: Option<Seq<char>>,
}

/// The characters of an optional text.
pub open spec fn text_view(text: Option<String>) -> Option<Seq<char>> {
    match text {
        Some(t) => Some(t@),
        None => None,
    }
}

/// A copy of an optional text.
pub fn clone_text(text: &Option<String>) -> (copy: Option<String>)
    ensures
        text_view(copy) == text_view(*text),
{
    match text {
        Some(t) => Some(t.clone()),
        None => None,
    }
}

impl View for MessageRecord {
    type V = MessageRecordView;

    open spec fn view(&self) -> MessageRecordView {
        MessageRecordView {
            id: self.id,
            text: self.text@,
            is_user_message: self.is_user_message,
            response_status: self.response_status,
            date_created: self.date_created,
            space_id: self.space_id,
            response_text: text_view(self.response_text),
        }
    }
}

impl Clone for MessageRecord {
    fn clone(&self) -> (copy: MessageRecord)
        ensures
            copy@ == self@,
    {
        MessageRecord {
            id: self.id,
            text: self.text.clone(),
            is_user_message: self.is_user_message,
            response_status: self.response_status,
            date_created: self.date_created,
            space_id: self.space_id,
            response_text: clone_text(&self.response_text),
        }
    }
}

} // verus!
