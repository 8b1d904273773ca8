use server::status::{ResponseStatus, TaskStatus};

#[test]
fn task_status_ordinals() {
    assert_eq!(TaskStatus::Pending.ordinal(), 0);
    assert_eq!(TaskStatus::Failed.ordinal(), 1);
    assert_eq!(TaskStatus::Succeeded.ordinal(), 2);
    assert_eq!(TaskStatus::from_ordinal(2), Some(TaskStatus::Succeeded));
    assert_eq!(TaskStatus::from_ordinal(3), None);
    assert_eq!(TaskStatus::from_ordinal(-1), None);
}

#[test]
fn task_status_of_run() {
    assert_eq!(TaskStatus::of_run(true), TaskStatus::Succeeded);
    assert_eq!(TaskStatus::of_run(false), TaskStatus::Failed);
    assert!(!TaskStatus::Pending.is_final());
    assert!(TaskStatus::Failed.is_final());
}

#[test]
fn response_status_ordinals() {
    assert_eq!(ResponseStatus::Unset.ordinal(), 0);
    assert_eq!(ResponseStatus::Generating.ordinal(), 1);
    assert_eq!(ResponseStatus::Completed.ordinal(), 2);
    assert_eq!(ResponseStatus::Errored.ordinal(), 3);
    assert_eq!(ResponseStatus::from_ordinal(3), Some(ResponseStatus::Errored));
    assert_eq!(ResponseStatus::from_ordinal(4), None);
    assert_eq!(ResponseStatus::of_exchange(true), ResponseStatus::Errored);
    assert_eq!(ResponseStatus::of_exchange(false), ResponseStatus::Completed);
}
