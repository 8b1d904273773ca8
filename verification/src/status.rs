//! The two closed status sets that the store keeps as ordinals.

use vstd::prelude::*;

verus! {

/// Where a task stands. The store keeps the ordinal.
#[derive(Clone, Copy, Debug, PartialEq, Eq, Structural)]
pub enum TaskStatus {
    /// Created and not yet finished.
    Pending,
    /// Finished after its run phase returned an error.
    Failed,
    /// Finished after its run phase returned normally.
    Succeeded,
}

impl TaskStatus {
    /// The ordinal under which the store keeps this status.
    pub open spec fn spec_ordinal(self) -> i32 {
        match self {
            TaskStatus::Pending => 0,
            TaskStatus::Failed => 1,
            TaskStatus::Succeeded => 2,
        }
    }

    /// The status that `ordinal` stands for, if any.
    pub open spec fn spec_from_ordinal(ordinal: i32) -> Option<TaskStatus> {
        if ordinal == 0 {
            Some(TaskStatus::Pending)
        } else if ordinal == 1 {
            Some(TaskStatus::Failed)
        } else if ordinal == 2 {
            Some(TaskStatus::Succeeded)
        } else {
            None
        }
    }

    /// The status that a finished run phase leaves: `Succeeded` when it
    /// returned normally, `Failed` when it returned an error.
    pub open spec fn spec_of_run(run_ok: bool) -> TaskStatus {
        if run_ok {
            TaskStatus::Succeeded
        } else {
            TaskStatus::Failed
        }
    }

    #[verifier::when_used_as_spec(spec_ordinal)]
    pub fn ordinal(self) -> (n: i32)
        ensures
            n == self.spec_ordinal(),
            0 <= n <= 2,
            Self::spec_from_ordinal(n) == Some(self),
    {
        match self {
            TaskStatus::Pending => 0,
            TaskStatus::Failed => 1,
            TaskStatus::Succeeded => 2,
        }
    }

    pub fn from_ordinal(ordinal: i32) -> (status: Option<TaskStatus>)
        ensures
            status == Self::spec_from_ordinal(ordinal),
            status is Some <==> 0 <= ordinal <= 2,
            status matches Some(s) ==> s.spec_ordinal() == ordinal,
    {
        if ordinal == 0 {
            Some(TaskStatus::Pending)
        } else if ordinal == 1 {
            Some(TaskStatus::Failed)
        } else if ordinal == 2 {
            Some(TaskStatus::Succeeded)
        } else {
            None
        }
    }

    pub fn of_run(run_ok: bool) -> (status: TaskStatus)
        ensures
            status == Self::spec_of_run(run_ok),
            status != TaskStatus::Pending,
    {
        if run_ok {
            TaskStatus::Succeeded
        } else {
            TaskStatus::Failed
        }
    }

    /// Whether the task has been finished.
    pub fn is_final(self) -> (b: bool)
        ensures
            b == (self != TaskStatus::Pending),
    {
        match self {
            TaskStatus::Pending => false,
            _ => true,
        }
    }
}

/// The progress marker on a conversation message. The store keeps the
/// ordinal.
#[derive(Clone, Copy, Debug, PartialEq, Eq, Structural)]
pub enum ResponseStatus {
    /// No response was asked for yet.
    Unset,
    /// A response is being generated.
    Generating,
    /// The exchange ended with an answer.
    Completed,
    /// The exchange ended with an error text in place of an answer.
    Errored,
}

impl ResponseStatus {
    pub open spec fn spec_ordinal(self) -> i32 {
        match self {
            ResponseStatus::Unset => 0,
            ResponseStatus::Generating => 1,
            ResponseStatus::Completed => 2,
            ResponseStatus::Errored => 3,
        }
    }

    pub open spec fn spec_from_ordinal(ordinal: i32) -> Option<ResponseStatus> {
        if ordinal == 0 {
            Some(ResponseStatus::Unset)
        } else if ordinal == 1 {
            Some(ResponseStatus::Generating)
        } else if ordinal == 2 {
            Some(ResponseStatus::Completed)
        } else if ordinal == 3 {
            Some(ResponseStatus::Errored)
        } else {
            None
        }
    }

    /// The status that ends an exchange: `Errored` when an error text was
    /// captured, `Completed` otherwise.
    pub open spec fn spec_of_exchange(errored: bool) -> ResponseStatus {
        if errored {
            ResponseStatus::Errored
        } else {
            ResponseStatus::Completed
        }
    }

    #[verifier::when_used_as_spec(spec_ordinal)]
    pub fn ordinal(self) -> (n: i32)
        ensures
            n == self.spec_ordinal(),
            0 <= n <= 3,
            Self::spec_from_ordinal(n) == Some(self),
    {
        match self {
            ResponseStatus::Unset => 0,
            ResponseStatus::Generating => 1,
            ResponseStatus::Completed => 2,
            ResponseStatus::Errored => 3,
        }
    }

    pub fn from_ordinal(ordinal: i32) -> (status: Option<ResponseStatus>)
        ensures
            status == Self::spec_from_ordinal(ordinal),
            status is Some <==> 0 <= ordinal <= 3,
            status matches Some(s) ==> s.spec_ordinal() == ordinal,
    {
        if ordinal == 0 {
            Some(ResponseStatus::Unset)
        } else if ordinal == 1 {
            Some(ResponseStatus::Generating)
        } else if ordinal == 2 {
            Some(ResponseStatus::Completed)
        } else if ordinal == 3 {
            Some(ResponseStatus::Errored)
        } else {
            None
        }
    }

    pub fn of_exchange(errored: bool) -> (status: ResponseStatus)
        ensures
            status == Self::spec_of_exchange(errored),
    {
        if errored {
            ResponseStatus::Errored
        } else {
            ResponseStatus::Completed
        }
    }
}

} // verus!
