//! The dispatcher: admits task instances that have been set up, lets at most
//! as many of them run at a time as it has permits, and sees each of them
//! through to its finish.
//!
//! The dispatcher decides; it does not run anything. Its driver tells it
//! what happened (an instance was set up, a run ended, a finish ended) and
//! is told what to do next (start this run, finish with this status).
//!
//! A permit is held for the run alone. It is taken when the run is started
//! and given back the moment the run ends, so that neither a setup nor a
//! finish, however slow, keeps another run waiting.

use vstd::prelude::*;
use std::collections::{HashMap, VecDeque};
use vstd::std_specs::iter::IteratorSpec;
use crate::status::TaskStatus;
use crate::tasks::{Lifecycle, Task, TaskError, TaskExec};

verus! {

/// How many instances run at a time, unless the dispatcher is made with
/// another number.
pub const DEFAULT_PERMITS: usize = 100;

/// What the supervisor of a dispatcher can be told.
#[derive(Clone, Copy, Debug, PartialEq, Eq, Structural)]
pub enum DispatcherEvent {
    /// Stop supervising, and acknowledge.
    Shutdown,
}

/// What a running instance can be told from outside.
#[derive(Clone, Copy, Debug, PartialEq, Eq, Structural)]
pub enum TaskCommand {
    CompletedExternally,
}

/// Where an admitted instance stands.
#[derive(Clone, Copy, Debug, PartialEq, Eq, Structural)]
pub enum Slot {
    /// Waiting for a permit.
    Queued,
    /// Holding a permit, its run under way.
    Running,
    /// Its run over and its permit given back, its finish under way with
    /// this status.
    Finishing(TaskStatus),
    /// Finished with this status.
    Finished(TaskStatus),
}

/// An admitted instance.
#[derive(Clone, Copy, Debug, PartialEq, Eq, Structural)]
pub struct Instance {
    pub task_id: u128,
    pub slot: Slot,
}

/// What the dispatcher says of an instance that it admits.
#[derive(Clone, Copy, Debug, PartialEq, Eq, Structural)]
pub struct Admission {
    pub task_id: u128,
    /// The name under which the dispatcher knows the instance.
    pub ticket: usize,
    /// Whether the run of the instance is to start at once.
    pub start: bool,
}

/// What the dispatcher says when a run has ended.
#[derive(Clone, Copy, Debug, PartialEq, Eq, Structural)]
pub struct RunEnd {
    /// The status with which the instance is to be finished.
    pub status: TaskStatus,
    /// The instance that got the permit, if one waited: start its run.
    pub start: Option<usize>,
}

/// What the dispatcher is told.
#[derive(Clone, Copy, Debug, PartialEq, Eq, Structural)]
pub enum Event {
    /// An instance has been set up.
    Accept { task_id: u128 },
    /// The run of an instance has ended, normally or in error.
    RunCompleted { ticket: usize, ok: bool },
    /// The finish of an instance has ended, normally or in error.
    FinishCompleted { ticket: usize },
}

/// The order to start the finish of an instance, with a status.
#[derive(Clone, Copy, Debug, PartialEq, Eq, Structural)]
pub struct FinishOrder {
    pub ticket: usize,
    pub status: TaskStatus,
}

/// What the dispatcher tells its driver to do on one event.
#[derive(Clone, Copy, Debug, PartialEq, Eq, Structural)]
pub struct Orders {
    /// Start the finish of this instance, with this status.
    pub finish: Option<FinishOrder>,
    /// Start the run of this instance.
    pub start: Option<usize>,
}

/// The lifecycle state that a slot stands for.
pub open spec fn lifecycle_of(slot: Slot) -> Lifecycle {
    match slot {
        Slot::Queued => Lifecycle::Queued,
        Slot::Running => Lifecycle::Running,
        Slot::Finishing(_) => Lifecycle::Running,
        Slot::Finished(status) => Lifecycle::Finished(status),
    }
}

/// Whether an instance in this slot holds a permit: only while it runs.
pub open spec fn holds_permit(slot: Slot) -> bool {
    slot is Running
}

/// How many of the instances hold a permit.
pub open spec fn held_count(instances: Seq<Instance>) -> nat
    decreases instances.len(),
{
    if instances.len() == 0 {
        0
    } else {
        held_count(instances.drop_last()) + if holds_permit(instances.last().slot) {
            1nat
        } else {
            0nat
        }
    }
}

/// The state of a dispatcher.
pub struct DispatcherView {
    pub permits: usize,
    /// Every instance ever admitted, by ticket.
    pub instances: Seq<Instance>,
    /// The tickets of the instances that wait for a permit, first come
    /// first.
    pub waiting: Seq<usize>,
}

impl DispatcherView {
    /// What holds of every dispatcher: no more instances run than there are
    /// permits; the queue holds the waiting instances, each once, in the
    /// order in which they came; and nothing waits while a permit is free.
    pub open spec fn wf(self) -> bool {
        &&& self.instances.len() <= usize::MAX
        &&& held_count(self.instances) <= self.permits
        &&& forall|i: int|
            0 <= i < self.waiting.len() ==> (#[trigger] self.waiting[i]) < self.instances.len()
                && self.instances[self.waiting[i] as int].slot is Queued
        &&& forall|i: int, j: int|
            0 <= i < j < self.waiting.len() ==> self.waiting[i] < self.waiting[j]
        &&& forall|t: int|
            0 <= t < self.instances.len() && (#[trigger] self.instances[t]).slot is Queued
                ==> self.waiting.contains(t as usize)
        &&& self.waiting.len() > 0 ==> held_count(self.instances) == self.permits
    }

    /// A dispatcher with `permits` permits that has admitted nothing.
    pub open spec fn empty(permits: usize) -> DispatcherView {
        DispatcherView { permits, instances: Seq::empty(), waiting: Seq::empty() }
    }

    /// Whether the dispatcher has a ticket left for another instance.
    pub open spec fn has_room(self) -> bool {
        self.instances.len() < usize::MAX
    }

    /// What the dispatcher says of the instance that it admits next: its
    /// ticket is the next one, and it runs at once where a permit is free.
    pub open spec fn admission(self, task_id: u128) -> Admission {
        Admission {
            task_id,
            ticket: self.instances.len() as usize,
            start: held_count(self.instances) < self.permits,
        }
    }

    /// The dispatcher once it has admitted the instance: the instance runs
    /// where a permit is free, and is the last to wait otherwise.
    pub open spec fn with_admitted(self, task_id: u128) -> DispatcherView {
        if self.admission(task_id).start {
            DispatcherView {
                instances: self.instances.push(Instance { task_id, slot: Slot::Running }),
                ..self
            }
        } else {
            DispatcherView {
                instances: self.instances.push(Instance { task_id, slot: Slot::Queued }),
                waiting: self.waiting.push(self.admission(task_id).ticket),
                ..self
            }
        }
    }

    /// The admission of an instance, as an event: it runs at once where a
    /// permit is free, and waits otherwise. Nothing changes where no ticket
    /// is left, which is the case that no dispatcher in memory is in.
    pub open spec fn accept(self, task_id: u128) -> (DispatcherView, Option<Admission>) {
        if self.has_room() {
            (self.with_admitted(task_id), Some(self.admission(task_id)))
        } else {
            (self, None)
        }
    }

    /// The end of a run: the instance gives its permit back and is to be
    /// finished, with the status that the run left; the permit goes to the
    /// instance that has waited longest, if any waits. Nothing happens
    /// where the instance is not running.
    pub open spec fn run_completed(self, ticket: usize, ok: bool) -> (
        DispatcherView,
        Option<RunEnd>,
    ) {
        if ticket < self.instances.len() && self.instances[ticket as int].slot is Running {
            let status = TaskStatus::spec_of_run(ok);
            let ended = self.instances.update(
                ticket as int,
                Instance { slot: Slot::Finishing(status), ..self.instances[ticket as int] },
            );
            if self.waiting.len() > 0 {
                let next = self.waiting[0];
                (
                    DispatcherView {
                        instances: ended.update(
                            next as int,
                            Instance { slot: Slot::Running, ..ended[next as int] },
                        ),
                        waiting: self.waiting.drop_first(),
                        ..self
                    },
                    Some(RunEnd { status, start: Some(next) }),
                )
            } else {
                (
                    DispatcherView { instances: ended, ..self },
                    Some(RunEnd { status, start: None }),
                )
            }
        } else {
            (self, None)
        }
    }

    /// The end of a finish: the instance is finished, however its finish
    /// ended. Nothing happens where the instance is not being finished.
    pub open spec fn finish_completed(self, ticket: usize) -> (DispatcherView, bool) {
        if ticket < self.instances.len() && self.instances[ticket as int].slot is Finishing {
            let status = self.instances[ticket as int].slot->Finishing_0;
            (
                DispatcherView {
                    instances: self.instances.update(
                        ticket as int,
                        Instance { slot: Slot::Finished(status), ..self.instances[ticket as int] },
                    ),
                    ..self
                },
                true,
            )
        } else {
            (self, false)
        }
    }

    /// What an event does to the dispatcher, and what the driver is told.
    pub open spec fn apply(self, event: Event) -> (DispatcherView, Orders) {
        match event {
            Event::Accept { task_id } => {
                let (next, admission) = self.accept(task_id);
                (
                    next,
                    Orders {
                        finish: None,
                        start: match admission {
                            Some(a) if a.start => Some(a.ticket),
                            _ => None,
                        },
                    },
                )
            },
            Event::RunCompleted { ticket, ok } => {
                let (next, end) = self.run_completed(ticket, ok);
                (
                    next,
                    match end {
                        Some(e) => Orders {
                            finish: Some(FinishOrder { ticket, status: e.status }),
                            start: e.start,
                        },
                        None => Orders { finish: None, start: None },
                    },
                )
            },
            Event::FinishCompleted { ticket } => (
                self.finish_completed(ticket).0,
                Orders { finish: None, start: None },
            ),
        }
    }

    /// The dispatcher after a sequence of events.
    pub open spec fn after(self, events: Seq<Event>) -> DispatcherView
        decreases events.len(),
    {
        if events.len() == 0 {
            self
        } else {
            self.after(events.drop_last()).apply(events.last()).0
        }
    }

    /// What the driver is told on each of a sequence of events.
    pub open spec fn orders(self, events: Seq<Event>) -> Seq<Orders>
        decreases events.len(),
    {
        if events.len() == 0 {
            Seq::empty()
        } else {
            self.orders(events.drop_last()).push(
                self.after(events.drop_last()).apply(events.last()).1,
            )
        }
    }
}

/// How often the driver was told to start the run of the instance `ticket`.
pub open spec fn starts(orders: Seq<Orders>, ticket: usize) -> nat
    decreases orders.len(),
{
    if orders.len() == 0 {
        0
    } else {
        starts(orders.drop_last(), ticket) + if orders.last().start == Some(ticket) {
            1nat
        } else {
            0nat
        }
    }
}

/// How often the driver was told to finish the instance `ticket`.
pub open spec fn finishes(orders: Seq<Orders>, ticket: usize) -> nat
    decreases orders.len(),
{
    if orders.len() == 0 {
        0
    } else {
        finishes(orders.drop_last(), ticket) + if orders.last().finish matches Some(f)
            && f.ticket == ticket {
            1nat
        } else {
            0nat
        }
    }
}

/// How often the driver was told to finish the instance `ticket` with the
/// status `status`.
pub open spec fn finishes_with(orders: Seq<Orders>, ticket: usize, status: TaskStatus) -> nat
    decreases orders.len(),
{
    if orders.len() == 0 {
        0
    } else {
        finishes_with(orders.drop_last(), ticket, status) + if orders.last().finish == Some(
            FinishOrder { ticket, status },
        ) {
            1nat
        } else {
            0nat
        }
    }
}

/// An instance is told to finish with one status no more often than it is
/// told to finish at all.
pub proof fn lemma_finishes_with(orders: Seq<Orders>, ticket: usize, status: TaskStatus)
    ensures
        finishes_with(orders, ticket, status) <= finishes(orders, ticket),
    decreases orders.len(),
{
    if orders.len() > 0 {
        lemma_finishes_with(orders.drop_last(), ticket, status);
    }
}

/// Admitting an instance adds it to the count of permits held if it runs.
pub proof fn lemma_held_push(instances: Seq<Instance>, instance: Instance)
    ensures
        held_count(instances.push(instance)) == held_count(instances) + if holds_permit(
            instance.slot,
        ) {
            1nat
        } else {
            0nat
        },
{
    assert(instances.push(instance).drop_last() =~= instances);
}

/// Moving one instance to another slot changes the count of permits held
/// by what that instance held and holds.
pub proof fn lemma_held_update(instances: Seq<Instance>, t: int, instance: Instance)
    requires
        0 <= t < instances.len(),
    ensures
        held_count(instances.update(t, instance)) + (if holds_permit(instances[t].slot) {
            1nat
        } else {
            0nat
        }) == held_count(instances) + (if holds_permit(instance.slot) {
            1nat
        } else {
            0nat
        }),
    decreases instances.len(),
{
    let updated = instances.update(t, instance);
    if t == instances.len() - 1 {
        assert(updated.drop_last() =~= instances.drop_last());
    } else {
        lemma_held_update(instances.drop_last(), t, instance);
        assert(updated.drop_last() =~= instances.drop_last().update(t, instance));
    }
}

/// The count of permits held is no more than the number of instances, and
/// an instance that holds a permit makes it positive.
pub proof fn lemma_held_bounds(instances: Seq<Instance>, t: int)
    ensures
        held_count(instances) <= instances.len(),
        0 <= t < instances.len() && holds_permit(instances[t].slot) ==> held_count(instances) > 0,
    decreases instances.len(),
{
    if instances.len() > 0 {
        lemma_held_bounds(instances.drop_last(), t);
    }
}

/// Every event leaves the dispatcher well formed: in particular, no event
/// can make more instances run than there are permits.
pub proof fn lemma_apply_preserves_wf(d: DispatcherView, event: Event)
    requires
        d.wf(),
    ensures
        d.apply(event).0.wf(),
        d.apply(event).0.permits == d.permits,
        d.instances.len() <= d.apply(event).0.instances.len() <= d.instances.len() + 1,
{
    let next = d.apply(event).0;
    match event {
        Event::Accept { task_id } => {
            if !d.has_room() {
            } else if held_count(d.instances) < d.permits {
                let instance = Instance { task_id, slot: Slot::Running };
                lemma_held_push(d.instances, instance);
                assert(d.waiting.len() == 0);
                assert forall|t: int|
                    0 <= t < next.instances.len() && (
                    #[trigger] next.instances[t]).slot is Queued implies next.waiting.contains(
                    t as usize,
                ) by {
                    assert(d.instances[t] == next.instances[t]);
                }
            } else {
                let instance = Instance { task_id, slot: Slot::Queued };
                lemma_held_push(d.instances, instance);
                lemma_held_bounds(d.instances, 0);
                assert forall|t: int|
                    0 <= t < next.instances.len() && (
                    #[trigger] next.instances[t]).slot is Queued implies next.waiting.contains(
                    t as usize,
                ) by {
                    if t < d.instances.len() {
                        assert(d.instances[t] == next.instances[t]);
                        let i = choose|i: int|
                            0 <= i < d.waiting.len() && d.waiting[i] == t as usize;
                        assert(next.waiting[i] == t as usize);
                    } else {
                        assert(next.waiting[d.waiting.len() as int] == t as usize);
                    }
                }
                assert forall|i: int| 0 <= i < next.waiting.len() implies (
                #[trigger] next.waiting[i]) < next.instances.len()
                    && next.instances[next.waiting[i] as int].slot is Queued by {
                    if i < d.waiting.len() {
                        assert(next.waiting[i] == d.waiting[i]);
                    }
                }
                assert forall|i: int, j: int| 0 <= i < j < next.waiting.len() implies next.waiting[i]
                    < next.waiting[j] by {
                    assert(next.waiting[i] == d.waiting[i]);
                    if j < d.waiting.len() {
                        assert(next.waiting[j] == d.waiting[j]);
                    }
                }
            }
        },
        Event::RunCompleted { ticket, ok } => {
            if ticket < d.instances.len() && d.instances[ticket as int].slot is Running {
                let status = TaskStatus::spec_of_run(ok);
                let ended = d.instances.update(
                    ticket as int,
                    Instance { slot: Slot::Finishing(status), ..d.instances[ticket as int] },
                );
                lemma_held_update(d.instances, ticket as int, ended[ticket as int]);
                lemma_held_bounds(d.instances, ticket as int);
                if d.waiting.len() > 0 {
                    let head = d.waiting[0];
                    assert(head != ticket);
                    lemma_held_update(ended, head as int, next.instances[head as int]);
                    assert forall|i: int| 0 <= i < next.waiting.len() implies (
                    #[trigger] next.waiting[i]) < next.instances.len()
                        && next.instances[next.waiting[i] as int].slot is Queued by {
                        assert(next.waiting[i] == d.waiting[i + 1]);
                        assert(d.waiting[0] < d.waiting[i + 1]);
                    }
                    assert forall|i: int, j: int|
                        0 <= i < j < next.waiting.len() implies next.waiting[i]
                        < next.waiting[j] by {
                        assert(next.waiting[i] == d.waiting[i + 1]);
                        assert(next.waiting[j] == d.waiting[j + 1]);
                    }
                    assert forall|t: int|
                        0 <= t < next.instances.len() && (
                        #[trigger] next.instances[t]).slot is Queued implies next.waiting.contains(
                        t as usize,
                    ) by {
                        assert(t != head && t != ticket);
                        assert(d.instances[t] == next.instances[t]);
                        let i = choose|i: int|
                            0 <= i < d.waiting.len() && d.waiting[i] == t as usize;
                        assert(i > 0);
                        assert(next.waiting[i - 1] == t as usize);
                    }
                } else {
                    assert forall|t: int|
                        0 <= t < next.instances.len() && (
                        #[trigger] next.instances[t]).slot is Queued implies next.waiting.contains(
                        t as usize,
                    ) by {
                        assert(d.instances[t] == next.instances[t]);
                    }
                }
            }
        },
        Event::FinishCompleted { ticket } => {
            if ticket < d.instances.len() && d.instances[ticket as int].slot is Finishing {
                lemma_held_update(d.instances, ticket as int, next.instances[ticket as int]);
                assert forall|t: int|
                    0 <= t < next.instances.len() && (
                    #[trigger] next.instances[t]).slot is Queued implies next.waiting.contains(
                    t as usize,
                ) by {
                    assert(d.instances[t] == next.instances[t]);
                }
            }
        },
    }
}

/// What holds after every sequence of events, from a dispatcher that has
/// admitted nothing.
///
/// At no time do more instances run than there are permits. The run of an
/// instance was started exactly once unless it still waits, and never
/// twice. Its finish was started exactly once if its run has ended, and not
/// at all before, with the status that its run left: no instance is
/// finished twice, and none is left unfinished once its run has ended,
/// however the run ended.
pub proof fn lemma_dispatcher_laws(permits: usize, events: Seq<Event>)
    ensures
        ({
            let d = DispatcherView::empty(permits).after(events);
            let orders = DispatcherView::empty(permits).orders(events);
            &&& d.wf()
            &&& d.instances.len() <= events.len()
            &&& d.permits == permits
            &&& held_count(d.instances) <= permits
            &&& orders.len() == events.len()
            &&& forall|t: usize|
                t < d.instances.len() ==> #[trigger] starts(orders, t) == (if d.instances[t as int].slot is Queued {
                    0nat
                } else {
                    1nat
                })
            &&& forall|t: usize|
                t < d.instances.len() ==> #[trigger] finishes(orders, t) == (if d.instances[t as int].slot is Finishing
                    || d.instances[t as int].slot is Finished {
                    1nat
                } else {
                    0nat
                })
            &&& forall|t: usize, status: TaskStatus|
                t < d.instances.len() && (d.instances[t as int].slot == Slot::Finishing(status)
                    || d.instances[t as int].slot == Slot::Finished(status))
                    ==> #[trigger] finishes_with(orders, t, status) == 1
            &&& forall|t: usize|
                #![trigger starts(orders, t)]
                #![trigger finishes(orders, t)]
                t >= d.instances.len() ==> starts(orders, t) == 0 && finishes(orders, t) == 0
        }),
    decreases events.len(),
{
    let start = DispatcherView::empty(permits);
    if events.len() == 0 {
        assert(start.wf());
    } else {
        let init = events.drop_last();
        lemma_dispatcher_laws(permits, init);
        let before = start.after(init);
        let event = events.last();
        lemma_apply_preserves_wf(before, event);
        let d = start.after(events);
        let orders_before = start.orders(init);
        let orders = start.orders(events);
        assert(orders.drop_last() =~= orders_before);
        lemma_held_bounds(before.instances, 0);
        assert forall|t: usize| t < d.instances.len() implies #[trigger] starts(orders, t) == (
        if d.instances[t as int].slot is Queued {
            0nat
        } else {
            1nat
        }) by {
            if t < before.instances.len() {
                assert(starts(orders_before, t) == (if before.instances[t as int].slot is Queued {
                    0nat
                } else {
                    1nat
                }));
            } else {
                assert(starts(orders_before, t) == 0);
            }
        }
        assert forall|t: usize| t < d.instances.len() implies #[trigger] finishes(orders, t) == (
        if d.instances[t as int].slot is Finishing || d.instances[t as int].slot is Finished {
            1nat
        } else {
            0nat
        }) by {
            if t < before.instances.len() {
                assert(finishes(orders_before, t) == (if before.instances[t as int].slot is Finishing
                    || before.instances[t as int].slot is Finished {
                    1nat
                } else {
                    0nat
                }));
            } else {
                assert(starts(orders_before, t) == 0 && finishes(orders_before, t) == 0);
            }
        }
        assert forall|t: usize, status: TaskStatus|
            t < d.instances.len() && (d.instances[t as int].slot == Slot::Finishing(status)
                || d.instances[t as int].slot == Slot::Finished(status)) implies #[trigger] finishes_with(
            orders,
            t,
            status,
        ) == 1 by {
            if t < before.instances.len() {
                if before.instances[t as int].slot == Slot::Finishing(status)
                    || before.instances[t as int].slot == Slot::Finished(status) {
                    assert(finishes_with(orders_before, t, status) == 1);
                    assert(finishes(orders_before, t) == 1);
                } else {
                    assert(finishes(orders_before, t) == 0);
                    lemma_finishes_with(orders_before, t, status);
                }
            } else {
                assert(starts(orders_before, t) == 0 && finishes(orders_before, t) == 0);
            }
        }
        assert forall|t: usize|
            #![trigger starts(orders, t)]
            #![trigger finishes(orders, t)]
            t >= d.instances.len() implies starts(orders, t) == 0 && finishes(orders, t)
            == 0 by {
            assert(starts(orders_before, t) == 0 && finishes(orders_before, t) == 0);
        }
    }
}

/// Every run that ends moves the queue on: the instance that has waited
/// longest gets the permit and starts, and every other waiting instance
/// moves up one place. So an instance at the place `p` of the queue runs
/// once `p + 1` runs have ended, whatever becomes of their finishes.
pub proof fn lemma_queue_advances(d: DispatcherView, ticket: usize, ok: bool)
    requires
        d.wf(),
        ticket < d.instances.len(),
        d.instances[ticket as int].slot is Running,
        d.waiting.len() > 0,
    ensures
        d.run_completed(ticket, ok).1 == Some(
            RunEnd { status: TaskStatus::spec_of_run(ok), start: Some(d.waiting[0]) },
        ),
        d.run_completed(ticket, ok).0.instances[d.waiting[0] as int].slot is Running,
        d.run_completed(ticket, ok).0.waiting == d.waiting.drop_first(),
        forall|p: int|
            1 <= p < d.waiting.len() ==> d.run_completed(ticket, ok).0.waiting[p - 1]
                == d.waiting[p],
{
}

/// The end of a run gives the permit back at once: unless another instance
/// takes it over, one instance fewer runs than before; and the end of a
/// finish changes nothing about who runs.
pub proof fn lemma_permit_is_for_the_run(d: DispatcherView, ticket: usize, ok: bool)
    requires
        d.wf(),
    ensures
        d.run_completed(ticket, ok).1 matches Some(end) ==> held_count(
            d.run_completed(ticket, ok).0.instances,
        ) + (if end.start is None {
            1nat
        } else {
            0nat
        }) == held_count(d.instances) && !holds_permit(
            d.run_completed(ticket, ok).0.instances[ticket as int].slot,
        ),
        held_count(d.finish_completed(ticket).0.instances) == held_count(d.instances),
{
    if ticket < d.instances.len() && d.instances[ticket as int].slot is Running {
        let status = TaskStatus::spec_of_run(ok);
        let ended = d.instances.update(
            ticket as int,
            Instance { slot: Slot::Finishing(status), ..d.instances[ticket as int] },
        );
        lemma_held_update(d.instances, ticket as int, ended[ticket as int]);
        if d.waiting.len() > 0 {
            let head = d.waiting[0];
            assert(head != ticket);
            lemma_held_update(
                ended,
                head as int,
                Instance { slot: Slot::Running, ..ended[head as int] },
            );
        }
    }
    if ticket < d.instances.len() && d.instances[ticket as int].slot is Finishing {
        lemma_held_update(
            d.instances,
            ticket as int,
            d.finish_completed(ticket).0.instances[ticket as int],
        );
    }
}

/// Two submissions are admitted independently of each other, whether or
/// not they are alike: each becomes an instance of its own, under its own
/// identity and, where tickets are left, a ticket of its own, and the
/// instances admitted before stay as they are. Nothing is merged or turned
/// away because an equal task has been admitted.
pub proof fn lemma_submissions_are_independent(d: DispatcherView, a: u128, b: u128)
    requires
        d.wf(),
    ensures
        ({
            let first = d.admission(a);
            let mid = d.with_admitted(a);
            let second = mid.admission(b);
            let end = mid.with_admitted(b);
            let n = d.instances.len() as int;
            &&& first.task_id == a
            &&& second.task_id == b
            &&& end.instances.len() == n + 2
            &&& end.instances[n].task_id == a
            &&& end.instances[n + 1].task_id == b
            &&& forall|t: int| 0 <= t < n ==> end.instances[t] == d.instances[t]
            &&& d.has_room() ==> first.ticket == n
            &&& mid.has_room() ==> second.ticket == n + 1
            &&& first.start ==> end.instances[n].slot is Running
            &&& second.start ==> end.instances[n + 1].slot is Running
        }),
{
}

/// The identities of the instances, in the order of their tickets.
pub open spec fn identities(instances: Seq<Instance>) -> Seq<u128> {
    instances.map_values(|i: Instance| i.task_id)
}

/// Admits and gates task instances.
pub struct Dispatcher {
    permits: usize,
    instances: Vec<Instance>,
    waiting: VecDeque<usize>,
    held: usize,
    /// The instances in flight by identity, each with the ticket under
    /// which that identity was admitted last.
    registry: HashMap<u128, usize>,
}

impl View for Dispatcher {
    type V = DispatcherView;

    closed spec fn view(&self) -> DispatcherView {
        DispatcherView {
            permits: self.permits,
            instances: self.instances@,
            waiting: self.waiting@,
        }
    }
}

/// What `dispatch` answers for a task in the state `lifecycle` whose setup
/// ended with `setup_error`, if it ended in error: the admission for a task
/// that is set up, the error of the setup for one whose setup failed, and
/// for any other task the error that it is out of turn.
pub open spec fn spec_dispatch(
    d: DispatcherView,
    task_id: u128,
    lifecycle: Lifecycle,
    setup_error: Option<TaskError>,
) -> (DispatcherView, Result<Admission, TaskError>) {
    if lifecycle == Lifecycle::Queued {
        (d.with_admitted(task_id), Ok(d.admission(task_id)))
    } else {
        (
            d,
            Err(
                match setup_error {
                    Some(e) => e,
                    None => TaskError::OutOfOrder,
                },
            ),
        )
    }
}

impl Dispatcher {
    /// What holds of every dispatcher that this module hands out.
    pub closed spec fn wf(&self) -> bool {
        &&& self@.wf()
        &&& self.held == held_count(self.instances@)
        &&& self.registry@.dom() == identities(self.instances@).to_set()
        &&& forall|id: u128| #[trigger]
            self.registry@.contains_key(id) ==> self.registry@[id] < self.instances@.len()
                && self.instances@[self.registry@[id] as int].task_id == id
    }

    /// A well-formed dispatcher has a well-formed state.
    pub proof fn lemma_wf(&self)
        requires
            self.wf(),
        ensures
            self@.wf(),
    {
    }

    /// A dispatcher with the default number of permits.
    pub fn new() -> (dispatcher: Dispatcher)
        ensures
            dispatcher.wf(),
            dispatcher@ == DispatcherView::empty(DEFAULT_PERMITS),
    {
        Self::with_permits(DEFAULT_PERMITS)
    }

    /// A dispatcher that lets `permits` instances run at a time.
    pub fn with_permits(permits: usize) -> (dispatcher: Dispatcher)
        ensures
            dispatcher.wf(),
            dispatcher@ == DispatcherView::empty(permits),
    {
        broadcast use vstd::std_specs::hash::group_hash_axioms;

        let dispatcher = Dispatcher {
            permits,
            instances: Vec::new(),
            waiting: VecDeque::new(),
            held: 0,
            registry: HashMap::new(),
        };
        assert(dispatcher.registry@.dom() =~= identities(dispatcher.instances@).to_set());
        dispatcher
    }

    /// How many instances can run at a time.
    pub fn permits(&self) -> (n: usize)
        ensures
            n == self@.permits,
    {
        self.permits
    }

    /// How many instances run, each holding a permit.
    pub fn running(&self) -> (n: usize)
        requires
            self.wf(),
        ensures
            n == held_count(self@.instances),
            n <= self@.permits,
    {
        self.held
    }

    /// How many instances the dispatcher has admitted so far.
    pub fn admitted(&self) -> (n: usize)
        ensures
            n == self@.instances.len(),
    {
        self.instances.len()
    }

    /// How many instances wait for a permit.
    pub fn waiting(&self) -> (n: usize)
        ensures
            n == self@.waiting.len(),
    {
        self.waiting.len()
    }

    /// Where the instance `ticket` stands; `None` where no instance has
    /// that ticket.
    pub fn slot(&self, ticket: usize) -> (slot: Option<Slot>)
        ensures
            slot == if ticket < self@.instances.len() {
                Some(self@.instances[ticket as int].slot)
            } else {
                None
            },
    {
        if ticket < self.instances.len() {
            Some(self.instances[ticket].slot)
        } else {
            None
        }
    }

    /// Where the instance `ticket` stands in its life.
    pub fn lifecycle(&self, ticket: usize) -> (lifecycle: Option<Lifecycle>)
        ensures
            lifecycle == if ticket < self@.instances.len() {
                Some(lifecycle_of(self@.instances[ticket as int].slot))
            } else {
                None
            },
    {
        match self.slot(ticket) {
            Some(Slot::Queued) => Some(Lifecycle::Queued),
            Some(Slot::Running) => Some(Lifecycle::Running),
            Some(Slot::Finishing(_)) => Some(Lifecycle::Running),
            Some(Slot::Finished(status)) => Some(Lifecycle::Finished(status)),
            None => None,
        }
    }

    /// Admits an instance that has been set up: it runs at once where a
    /// permit is free, and waits otherwise. No instance is turned away: a
    /// list that has taken one more entry held fewer entries before than
    /// the machine can count, so a ticket was left.
    pub fn accept(&mut self, task_id: u128) -> (admission: Admission)
        requires
            old(self).wf(),
        ensures
            final(self).wf(),
            old(self)@.has_room(),
            final(self)@ == old(self)@.with_admitted(task_id),
            admission == old(self)@.admission(task_id),
    {
        broadcast use vstd::std_specs::hash::group_hash_axioms;

        let ticket = self.instances.len();
        let start = self.held < self.permits;
        self.registry.insert(task_id, ticket);
        if start {
            proof {
                lemma_held_push(self.instances@, Instance { task_id, slot: Slot::Running });
            }
            self.instances.push(Instance { task_id, slot: Slot::Running });
            self.held = self.held + 1;
        } else {
            proof {
                lemma_held_push(self.instances@, Instance { task_id, slot: Slot::Queued });
            }
            self.instances.push(Instance { task_id, slot: Slot::Queued });
            self.waiting.push_back(ticket);
        }
        let admitted = self.instances.len();
        assert(old(self)@.has_room()) by {
            assert(admitted == old(self)@.instances.len() + 1);
        }
        proof {
            lemma_apply_preserves_wf(old(self)@, Event::Accept { task_id });
            assert(identities(self.instances@) =~= identities(old(self).instances@).push(task_id));
            assert(identities(self.instances@).to_set() =~= identities(
                old(self).instances@,
            ).to_set().insert(task_id)) by {
                let before = identities(old(self).instances@);
                let after = identities(self.instances@);
                assert forall|id: u128| after.contains(id) <==> before.contains(id) || id
                    == task_id by {
                    if after.contains(id) {
                        let k = choose|k: int| 0 <= k < after.len() && after[k] == id;
                        if k < before.len() {
                            assert(before[k] == id);
                        }
                    }
                    if before.contains(id) {
                        let k = choose|k: int| 0 <= k < before.len() && before[k] == id;
                        assert(after[k] == id);
                    }
                    if id == task_id {
                        assert(after[before.len() as int] == id);
                    }
                }
            }
        }
        Admission { task_id, ticket, start }
    }

    /// Takes over a task whose setup has ended normally: every such task
    /// is admitted, under its own identity and a ticket of its own. A task
    /// whose setup failed is refused with the error of its setup, and any
    /// other task that is not set up as out of turn; nothing changes then,
    /// and neither the run nor the finish of the task will ever start.
    pub fn dispatch<T: TaskExec>(&mut self, task: &Task<T>) -> (r: Result<Admission, TaskError>)
        requires
            old(self).wf(),
        ensures
            final(self).wf(),
            (final(self)@, r) == spec_dispatch(
                old(self)@,
                task.id,
                task.lifecycle,
                task.setup_error,
            ),
            task.lifecycle == Lifecycle::Queued ==> old(self)@.has_room(),
    {
        match task.lifecycle {
            Lifecycle::Queued => Ok(self.accept(task.id)),
            _ => match task.setup_error {
                Some(e) => Err(e),
                None => Err(TaskError::OutOfOrder),
            },
        }
    }

    /// Records that the run of the instance `ticket` has ended, and says
    /// with which status it is to be finished: `Succeeded` where the run
    /// ended normally, `Failed` where it ended in error. The permit of the
    /// instance is free at once, and goes to the instance that has waited
    /// longest. Says `None`, and changes nothing, where the instance is not
    /// running.
    pub fn run_completed(&mut self, ticket: usize, ok: bool) -> (end: Option<RunEnd>)
        requires
            old(self).wf(),
        ensures
            final(self).wf(),
            (final(self)@, end) == old(self)@.run_completed(ticket, ok),
    {
        proof {
            lemma_apply_preserves_wf(self@, Event::RunCompleted { ticket, ok });
        }
        if ticket >= self.instances.len() {
            return None;
        }
        let instance = self.instances[ticket];
        match instance.slot {
            Slot::Running => {
                let status = TaskStatus::of_run(ok);
                let ended = Instance { task_id: instance.task_id, slot: Slot::Finishing(status) };
                proof {
                    lemma_held_update(self.instances@, ticket as int, ended);
                    lemma_held_bounds(self.instances@, ticket as int);
                }
                self.instances.set(ticket, ended);
                if let Some(next) = self.waiting.pop_front() {
                    assert(self.waiting@ =~= old(self).waiting@.drop_first());
                    assert(next == old(self).waiting@[0]);
                    let queued = self.instances[next];
                    let started = Instance { task_id: queued.task_id, slot: Slot::Running };
                    proof {
                        lemma_held_update(self.instances@, next as int, started);
                    }
                    self.instances.set(next, started);
                    assert(identities(self.instances@) =~= identities(old(self).instances@));
                    Some(RunEnd { status, start: Some(next) })
                } else {
                    self.held = self.held - 1;
                    assert(identities(self.instances@) =~= identities(old(self).instances@));
                    Some(RunEnd { status, start: None })
                }
            },
            _ => None,
        }
    }

    /// Records that the finish of the instance `ticket` has ended, however
    /// it ended. Says whether the instance was being finished; nothing
    /// changes where it was not.
    pub fn finish_completed(&mut self, ticket: usize) -> (finished: bool)
        requires
            old(self).wf(),
        ensures
            final(self).wf(),
            (final(self)@, finished) == old(self)@.finish_completed(ticket),
    {
        proof {
            lemma_apply_preserves_wf(self@, Event::FinishCompleted { ticket });
        }
        if ticket >= self.instances.len() {
            return false;
        }
        let instance = self.instances[ticket];
        match instance.slot {
            Slot::Finishing(status) => {
                let done = Instance { task_id: instance.task_id, slot: Slot::Finished(status) };
                proof {
                    lemma_held_update(self.instances@, ticket as int, done);
                }
                self.instances.set(ticket, done);
                assert(identities(self.instances@) =~= identities(old(self).instances@));
                true
            },
            _ => false,
        }
    }

    /// Tells the dispatcher one event, and says what to do next.
    pub fn apply(&mut self, event: Event) -> (orders: Orders)
        requires
            old(self).wf(),
        ensures
            final(self).wf(),
            (final(self)@, orders) == old(self)@.apply(event),
    {
        match event {
            Event::Accept { task_id } => {
                let admission = self.accept(task_id);
                let start = if admission.start {
                    Some(admission.ticket)
                } else {
                    None
                };
                Orders { finish: None, start }
            },
            Event::RunCompleted { ticket, ok } => {
                match self.run_completed(ticket, ok) {
                    Some(end) => Orders {
                        finish: Some(FinishOrder { ticket, status: end.status }),
                        start: end.start,
                    },
                    None => Orders { finish: None, start: None },
                }
            },
            Event::FinishCompleted { ticket } => {
                self.finish_completed(ticket);
                Orders { finish: None, start: None }
            },
        }
    }

    /// The identities of all instances that the dispatcher has admitted,
    /// each once, in no particular order. Finished instances stay on the
    /// list.
    pub fn list(&self) -> (ids: Vec<u128>)
        requires
            self.wf(),
        ensures
            ids@.no_duplicates(),
            ids@.to_set() == identities(self@.instances).to_set(),
            forall|id: u128|
                ids@.contains(id) <==> exists|t: int|
                    0 <= t < self@.instances.len() && (#[trigger] self@.instances[t]).task_id == id,
    {
        broadcast use vstd::std_specs::hash::group_hash_axioms;

        let mut ids: Vec<u128> = Vec::new();
        let ghost all = self.registry.keys().remaining().unref();
        for id in it: self.registry.keys()
            invariant
                it.seq().unref() == all,
                all.no_duplicates(),
                all.to_set() == self.registry@.dom(),
                ids@.len() == it.index(),
                forall|k: int| 0 <= k < ids@.len() ==> ids@[k] == all[k],
        {
            ids.push(*id);
        }
        assert(ids@ =~= all);
        assert forall|id: u128|
            ids@.contains(id) <==> exists|t: int|
                0 <= t < self@.instances.len() && (#[trigger] self@.instances[t]).task_id
                    == id by {
            let names = identities(self@.instances);
            assert(ids@.contains(id) <==> names.to_set().contains(id));
            if names.contains(id) {
                let t = choose|t: int| 0 <= t < names.len() && names[t] == id;
                assert(self@.instances[t].task_id == id);
            }
            if exists|t: int|
                0 <= t < self@.instances.len() && (#[trigger] self@.instances[t]).task_id == id {
                let t = choose|t: int|
                    0 <= t < self@.instances.len() && (#[trigger] self@.instances[t]).task_id
                        == id;
                assert(names[t] == id);
            }
        }
        ids
    }

    /// The event that asks the supervisor of the dispatcher to stop. The
    /// caller sends it and waits for the acknowledgement.
    pub fn shutdown(&self) -> (event: DispatcherEvent)
        ensures
            event == DispatcherEvent::Shutdown,
    {
        DispatcherEvent::Shutdown
    }

    /// What the supervisor does on an event: it acknowledges a shutdown,
    /// and cancels nothing.
    pub fn supervise(&self, event: DispatcherEvent) -> (acknowledge: bool)
        ensures
            acknowledge == (event == DispatcherEvent::Shutdown),
    {
        match event {
            DispatcherEvent::Shutdown => true,
        }
    }
}

} // verus!
