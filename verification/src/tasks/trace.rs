//! What holds of every sequence of turns of the task wrapper.

use vstd::prelude::*;
use crate::api::CoreEventView;
use crate::records::{FileRecordView, MessageRecordView, TaskRecordView};
use crate::status::TaskStatus;
use crate::tasks::{
    spec_finish, spec_resume, spec_run, spec_setup, Lifecycle, Phase, TaskReplyView,
    TaskRequestView, TaskView, WaitView,
};

verus! {

/// One call of the wrapper by its driver.
pub enum Input {
    Setup { space_id: u128 },
    Run,
    Finish { status: TaskStatus },
    Resume { reply: TaskReplyView },
}

/// What one call does to the instance, what it publishes, and what it asks
/// next.
pub open spec fn turn(t: TaskView, input: Input) -> (TaskView, Seq<CoreEventView>, TaskRequestView) {
    match input {
        Input::Setup { space_id } => (
            spec_setup(t, space_id).0,
            Seq::empty(),
            spec_setup(t, space_id).1,
        ),
        Input::Run => (spec_run(t).0, Seq::empty(), spec_run(t).1),
        Input::Finish { status } => (spec_finish(t, status).0, Seq::empty(), spec_finish(t, status).1),
        Input::Resume { reply } => spec_resume(t, reply),
    }
}

/// The instance after a sequence of calls.
pub open spec fn after(t: TaskView, inputs: Seq<Input>) -> TaskView
    decreases inputs.len(),
{
    if inputs.len() == 0 {
        t
    } else {
        turn(after(t, inputs.drop_last()), inputs.last()).0
    }
}

/// What the wrapper asked on each of a sequence of calls.
pub open spec fn requests(t: TaskView, inputs: Seq<Input>) -> Seq<TaskRequestView>
    decreases inputs.len(),
{
    if inputs.len() == 0 {
        Seq::empty()
    } else {
        requests(t, inputs.drop_last()).push(turn(after(t, inputs.drop_last()), inputs.last()).2)
    }
}

/// How often the wrapper asked for `phase` of the task kind.
pub open spec fn inner_count(requests: Seq<TaskRequestView>, phase: Phase) -> nat
    decreases requests.len(),
{
    if requests.len() == 0 {
        0
    } else {
        inner_count(requests.drop_last(), phase) + if requests.last() == TaskRequestView::Inner(
            phase,
        ) {
            1nat
        } else {
            0nat
        }
    }
}

/// How often the wrapper asked for the final status to be written.
pub open spec fn write_count(requests: Seq<TaskRequestView>) -> nat
    decreases requests.len(),
{
    if requests.len() == 0 {
        0
    } else {
        write_count(requests.drop_last()) + if requests.last() is WriteStatus {
            1nat
        } else {
            0nat
        }
    }
}

/// Whether every request to write the final status names the instance `id`
/// and the status `status`.
pub open spec fn writes_are(requests: Seq<TaskRequestView>, id: u128, status: TaskStatus) -> bool {
    forall|i: int|
        0 <= i < requests.len() && (#[trigger] requests[i]) is WriteStatus ==> requests[i]
            == (TaskRequestView::WriteStatus { id, status: status.spec_ordinal() })
}

/// The phase that the wrapper is in the middle of, if it waits for
/// anything but the creation of the task row.
pub open spec fn phase_under_way(wait: WaitView) -> Option<Phase> {
    match wait {
        WaitView::Idle => None,
        WaitView::Row => None,
        WaitView::Inner(phase) => Some(phase),
        WaitView::Task(phase) => Some(phase),
        WaitView::File(phase, _) => Some(phase),
        WaitView::Message(phase, _) => Some(phase),
    }
}

/// How the state of an instance goes with what has been asked of its kind
/// so far: `setups`, `runs` and `finishes` are the numbers of times that
/// the setup, the run and the finish of the kind have been asked for.
pub open spec fn in_step(t: TaskView, setups: nat, runs: nat, finishes: nat, writes: nat) -> bool {
    match t.lifecycle {
        Lifecycle::Created => t.wait is Idle && setups == 0 && runs == 0 && finishes == 0
            && writes == 0 && t.setup_error is None,
        Lifecycle::SetupInProgress => runs == 0 && finishes == 0 && writes == 0 && match t.wait {
            WaitView::Idle => setups <= 1 && t.setup_error is Some,
            WaitView::Row => setups == 0 && t.setup_error is None,
            _ => setups == 1 && phase_under_way(t.wait) == Some(Phase::Setup) && t.setup_error
                is None,
        },
        Lifecycle::Queued => t.wait is Idle && setups == 1 && runs == 0 && finishes == 0 && writes
            == 0 && t.setup_error is None,
        Lifecycle::Running => setups == 1 && runs == 1 && t.setup_error is None && match t.wait {
            WaitView::Idle => finishes == 0 && writes == 0,
            WaitView::Row => false,
            WaitView::Inner(phase) => writes == 0 && finishes == (if phase == Phase::Finish {
                1nat
            } else {
                0nat
            }) && phase != Phase::Setup,
            _ => (phase_under_way(t.wait) == Some(Phase::Run) && finishes == 0 && writes == 0)
                || (phase_under_way(t.wait) == Some(Phase::Finish) && finishes == 1 && writes
                == 1),
        },
        Lifecycle::Finished(status) => t.wait is Idle && setups == 1 && runs == 1 && finishes == 1
            && writes <= 1 && status == t.outcome && t.setup_error is None,
    }
}

/// The phases of a task kind are asked for in their order, each at most
/// once, whatever the driver does.
///
/// After any calls on a new instance: the run was asked for only if the
/// setup was and has ended normally, the finish only if the run was, none
/// of them twice; and an instance that is finished has had all three, and
/// is finished with the status that was handed to its finish. The final
/// status is written at most once, in the finish, and it is that status.
/// An instance keeps the error of its setup exactly where its setup has
/// failed; neither its run nor its finish is ever asked for then.
pub proof fn lemma_phases_in_order(t: TaskView, inputs: Seq<Input>)
    requires
        t.lifecycle == Lifecycle::Created,
        t.wait is Idle,
        t.setup_error is None,
    ensures
        ({
            let end = after(t, inputs);
            let asked = requests(t, inputs);
            let setups = inner_count(asked, Phase::Setup);
            let runs = inner_count(asked, Phase::Run);
            let finishes = inner_count(asked, Phase::Finish);
            let writes = write_count(asked);
            &&& in_step(end, setups, runs, finishes, writes)
            &&& writes <= finishes <= runs <= setups <= 1
            &&& writes_are(asked, end.id, end.outcome)
            &&& end.lifecycle is Finished ==> setups == 1 && runs == 1 && finishes == 1
                && end.lifecycle == Lifecycle::Finished(end.outcome)
            &&& runs == 1 ==> end.lifecycle is Running || end.lifecycle is Finished
            &&& end.setup_error is Some <==> end.lifecycle == Lifecycle::SetupInProgress
                && end.wait is Idle
            &&& end.setup_error is Some ==> runs == 0 && finishes == 0
        }),
    decreases inputs.len(),
{
    if inputs.len() > 0 {
        let init = inputs.drop_last();
        lemma_phases_in_order(t, init);
        let before = after(t, init);
        let asked_before = requests(t, init);
        let asked = requests(t, inputs);
        assert(asked.drop_last() =~= asked_before);
        let input = inputs.last();
        match input {
            Input::Resume { reply } => {
                lemma_resume_in_step(
                    before,
                    reply,
                    inner_count(asked_before, Phase::Setup),
                    inner_count(asked_before, Phase::Run),
                    inner_count(asked_before, Phase::Finish),
                    write_count(asked_before),
                );
            },
            _ => {},
        }
        let end = after(t, inputs);
        assert forall|i: int| 0 <= i < asked.len() && (#[trigger] asked[i]) is WriteStatus implies asked[i]
            == (TaskRequestView::WriteStatus { id: end.id, status: end.outcome.spec_ordinal() }) by {
            if i < asked_before.len() {
                assert(asked_before[i] == asked[i]);
                assert(write_count(asked_before) >= 1) by {
                    lemma_write_counted(asked_before, i);
                }
            }
        }
    }
}

/// How many more times `phase` has been asked for once `request` is asked.
pub open spec fn asks(request: TaskRequestView, phase: Phase) -> nat {
    if request == TaskRequestView::Inner(phase) {
        1
    } else {
        0
    }
}

/// A request to write the final status is counted.
pub proof fn lemma_write_counted(requests: Seq<TaskRequestView>, i: int)
    requires
        0 <= i < requests.len(),
        requests[i] is WriteStatus,
    ensures
        write_count(requests) >= 1,
    decreases requests.len(),
{
    if i < requests.len() - 1 {
        lemma_write_counted(requests.drop_last(), i);
    }
}

/// A turn on a reply keeps the state of the instance in step with what has
/// been asked so far, and leaves the identity and the status of an
/// instance alone once its final status is being written.
pub proof fn lemma_resume_in_step(
    t: TaskView,
    reply: TaskReplyView,
    setups: nat,
    runs: nat,
    finishes: nat,
    writes: nat,
)
    requires
        in_step(t, setups, runs, finishes, writes),
    ensures
        in_step(
            spec_resume(t, reply).0,
            setups + asks(spec_resume(t, reply).2, Phase::Setup),
            runs + asks(spec_resume(t, reply).2, Phase::Run),
            finishes + asks(spec_resume(t, reply).2, Phase::Finish),
            writes + (if spec_resume(t, reply).2 is WriteStatus {
                1nat
            } else {
                0nat
            }),
        ),
        spec_resume(t, reply).0.outcome == t.outcome,
        !(t.wait is Row) ==> spec_resume(t, reply).0.id == t.id,
        spec_resume(t, reply).2 is WriteStatus ==> spec_resume(t, reply).2 == (
        TaskRequestView::WriteStatus { id: t.id, status: t.outcome.spec_ordinal() }),
{
}

/// What a phase publishes once the task row `row` has arrived, where the
/// rows linked to it are `file` and `message`: the file if one is linked,
/// then the message if one is linked, then the task itself, each as a whole
/// row.
pub open spec fn notifications(
    row: TaskRecordView,
    file: FileRecordView,
    message: MessageRecordView,
) -> Seq<CoreEventView> {
    (if row.file_id is Some {
        seq![CoreEventView::FileUpdate { files: seq![file] }]
    } else {
        Seq::empty()
    }) + (if row.message_id is Some {
        seq![CoreEventView::MessageUpdate { messages: seq![message] }]
    } else {
        Seq::empty()
    }) + seq![CoreEventView::TaskUpdate { tasks: seq![row] }]
}

/// The replies of a store that holds the rows linked to the task row
/// `row`.
pub open spec fn linked_replies(
    row: TaskRecordView,
    file: FileRecordView,
    message: MessageRecordView,
) -> Seq<Input> {
    seq![Input::Resume { reply: TaskReplyView::Task(Some(row)) }] + (if row.file_id is Some {
        seq![Input::Resume { reply: TaskReplyView::File(Some(file)) }]
    } else {
        Seq::empty()
    }) + (if row.message_id is Some {
        seq![Input::Resume { reply: TaskReplyView::Message(Some(message)) }]
    } else {
        Seq::empty()
    })
}

/// All that the wrapper published on a sequence of calls, in order.
pub open spec fn published(t: TaskView, inputs: Seq<Input>) -> Seq<CoreEventView>
    decreases inputs.len(),
{
    if inputs.len() == 0 {
        Seq::empty()
    } else {
        published(t, inputs.drop_last()) + turn(after(t, inputs.drop_last()), inputs.last()).1
    }
}

/// Every phase that changes a row tells of it: once the task row has
/// arrived and the store holds the rows linked to it, the phase ends
/// normally, having published exactly `notifications`, and the wrapper is
/// idle again.
pub proof fn lemma_phase_notifies(
    t: TaskView,
    phase: Phase,
    row: TaskRecordView,
    file: FileRecordView,
    message: MessageRecordView,
)
    requires
        t.wait == WaitView::Task(phase),
    ensures
        ({
            let replies = linked_replies(row, file, message);
            &&& published(t, replies) == notifications(row, file, message)
            &&& requests(t, replies).last() == TaskRequestView::Done
            &&& after(t, replies).wait is Idle
            &&& after(t, replies).id == t.id
            &&& phase == Phase::Setup ==> after(t, replies).lifecycle == Lifecycle::Queued
            &&& phase == Phase::Finish ==> after(t, replies).lifecycle == Lifecycle::Finished(
                t.outcome,
            )
        }),
{
    let replies = linked_replies(row, file, message);
    let first = Input::Resume { reply: TaskReplyView::Task(Some(row)) };
    let on_file = Input::Resume { reply: TaskReplyView::File(Some(file)) };
    let on_message = Input::Resume { reply: TaskReplyView::Message(Some(message)) };
    let one = seq![first];
    assert(one.drop_last() =~= Seq::<Input>::empty());
    assert(after(t, one) == turn(t, first).0) by {
        assert(after(t, one.drop_last()) == t);
    }
    assert(published(t, one) =~= turn(t, first).1) by {
        assert(published(t, one.drop_last()) =~= Seq::<CoreEventView>::empty());
        assert(after(t, one.drop_last()) == t);
    }
    assert(requests(t, one).last() == turn(t, first).2) by {
        assert(after(t, one.drop_last()) == t);
    }
    if row.file_id is Some {
        let two = seq![first, on_file];
        assert(two.drop_last() =~= one);
        if row.message_id is Some {
            let three = seq![first, on_file, on_message];
            assert(three.drop_last() =~= two);
            assert(replies =~= three);
            assert(after(t, two) == turn(after(t, one), on_file).0);
            assert(published(t, two) =~= published(t, one) + turn(after(t, one), on_file).1);
            assert(published(t, three) =~= published(t, two) + turn(
                after(t, two),
                on_message,
            ).1);
            assert(published(t, three) =~= notifications(row, file, message));
        } else {
            assert(replies =~= two);
            assert(published(t, two) =~= notifications(row, file, message));
        }
    } else {
        if row.message_id is Some {
            let two = seq![first, on_message];
            assert(two.drop_last() =~= one);
            assert(replies =~= two);
            assert(published(t, two) =~= notifications(row, file, message));
        } else {
            assert(replies =~= one);
            assert(published(t, one) =~= notifications(row, file, message));
        }
    }
}

} // verus!
