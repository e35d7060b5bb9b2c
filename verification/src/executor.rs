//! The executor: the task table, the two notification channels and the
//! scheduling decisions.
//!
//! The executor never resumes a computation itself. Each of its steps takes
//! what happened and answers what to do next: which task to poll, when to
//! wait, when to stop. The caller resumes the computation and reports how
//! the poll ended.

use crate::channel::{lemma_without_contains, without, ChannelPair};
use crate::note::{Notification, SenderId, ROOT_ID, SHUTDOWN_ID};
use crate::reactor::Reactor;
use crate::tables::{
    task_entries, task_vacant, tasks_get, tasks_get_mut, tasks_insert, tasks_remove,
    tasks_vacant_key, tasks_with_capacity, SLOT_LIMIT,
};
use crate::task::{Task, TaskHandle, TaskState};
use crate::waker::Waker;
use slab::Slab;
use vstd::prelude::*;

verus! {

/// Why a task could not be spawned.
#[derive(Clone, Copy, Debug, PartialEq, Eq, Structural)]
pub enum SpawnError {
    /// The task table has no slot left below the slot limit.
    TableFull,
}

/// The answer to a query for an executor that was never built.
#[derive(Clone, Copy, Debug, PartialEq, Eq, Structural)]
pub struct NotRunning;

/// What the worker loop is to do next.
#[derive(Clone, Copy, Debug, PartialEq, Eq, Structural)]
pub enum WorkerStep {
    /// Nothing is queued: wait for a notification.
    Wait,
    /// The shutdown sentinel arrived: leave the loop.
    Stop,
    /// Poll the task of this id, then report the result with `finish_poll`.
    Poll(u64),
    /// The notification named no live task: there is nothing to do.
    Skip(u64),
    /// The task of this id is being polled already: its wake was noted and will be
    /// served when that poll ends.
    Deferred(u64),
}

/// How a poll step of a spawned task ended.
#[derive(Debug, PartialEq, Eq, Structural)]
pub enum PollOutcome {
    /// The task completed and left the table; here it is.
    Completed(Task),
    /// The task is idle and, owed a wake, was queued for another poll.
    Requeued,
    /// The task is idle until its next wake.
    Parked,
}

/// What the loop that drives the root task is to do next.
#[derive(Clone, Copy, Debug, PartialEq, Eq, Structural)]
pub enum RootStep {
    /// There is no root task.
    NotStarted,
    /// Poll the root task, then report the result with `finish_root`.
    Poll,
    /// The root task is idle and nothing is queued: wait.
    Wait,
    /// The root task is being polled already: the wake was noted.
    Deferred,
    /// The root task has completed.
    Finished,
}

/// How a poll step of the root task ended.
#[derive(Clone, Copy, Debug, PartialEq, Eq, Structural)]
pub enum RootOutcome {
    /// The root task completed, and the worker loop was told to stop.
    Finished,
    /// The root task is idle and, owed a wake, was queued for another poll.
    Requeued,
    /// The root task is idle until its next wake.
    Parked,
}

/// The task table and the worker's queue after a step of the worker loop,
/// with the step itself.
pub struct WorkerTurn {
    pub tasks: Map<usize, Task>,
    pub queue: Seq<Notification>,
    pub step: WorkerStep,
}

/// The task table and the worker's queue after a poll step was reported,
/// with the outcome.
pub struct PollTurn {
    pub tasks: Map<usize, Task>,
    pub queue: Seq<Notification>,
    pub outcome: PollOutcome,
}

/// The root task and the scheduling queue after a step of the root loop,
/// with the step itself.
pub struct RootTurn {
    pub root: Option<Task>,
    pub queue: Seq<Notification>,
    pub step: RootStep,
}

/// Whether the table holds a task for the notification id `id`.
pub open spec fn has_task(tasks: Map<usize, Task>, id: u64) -> bool {
    id < SLOT_LIMIT && tasks.contains_key(id as usize)
}

/// A freshly spawned task.
pub open spec fn spawned_task(id: u64) -> Task {
    Task { id, sender: SenderId::Worker, state: TaskState::Created, rewake: false, waker: None }
}

/// The root task before its first poll.
pub open spec fn root_task() -> Task {
    Task {
        id: ROOT_ID,
        sender: SenderId::Main,
        state: TaskState::Created,
        rewake: false,
        waker: None,
    }
}

/// One step of the worker loop. The oldest notification is taken; unless
/// it is the shutdown sentinel, every further notification for the same task
/// leaves the queue with it, so that many wakes make one poll. The task it
/// names then starts a poll step if it is at rest, and notes the wake if it
/// is being polled. A notification for a task that is gone or has completed
/// calls for nothing.
pub open spec fn worker_stepped(tasks: Map<usize, Task>, queue: Seq<Notification>) -> WorkerTurn {
    if queue.len() == 0 {
        WorkerTurn { tasks, queue, step: WorkerStep::Wait }
    } else {
        let n = queue[0];
        let rest = queue.subrange(1, queue.len() as int);
        if n.id == SHUTDOWN_ID {
            WorkerTurn { tasks, queue: rest, step: WorkerStep::Stop }
        } else if has_task(tasks, n.id) {
            let t = tasks[n.id as usize];
            WorkerTurn {
                tasks: tasks.insert(n.id as usize, t.began()),
                queue: without(rest, n.id),
                step: match t.state {
                    TaskState::Polling => WorkerStep::Deferred(n.id),
                    TaskState::Completed => WorkerStep::Skip(n.id),
                    _ => WorkerStep::Poll(n.id),
                },
            }
        } else {
            WorkerTurn { tasks, queue: without(rest, n.id), step: WorkerStep::Skip(n.id) }
        }
    }
}

/// The end of a poll step of the task `id`. A task that is ready leaves the
/// table. One that is not goes idle, and is queued again at once if a wake
/// was noted while it was polled.
pub open spec fn poll_finished(
    tasks: Map<usize, Task>,
    queue: Seq<Notification>,
    id: u64,
    ready: bool,
) -> PollTurn {
    let t = tasks[id as usize];
    if ready {
        PollTurn {
            tasks: tasks.remove(id as usize),
            queue,
            outcome: PollOutcome::Completed(t.ended(true)),
        }
    } else if t.rewake {
        PollTurn {
            tasks: tasks.insert(id as usize, t.ended(false)),
            queue: queue.push(Notification::new(id)),
            outcome: PollOutcome::Requeued,
        }
    } else {
        PollTurn {
            tasks: tasks.insert(id as usize, t.ended(false)),
            queue,
            outcome: PollOutcome::Parked,
        }
    }
}

/// One step of the loop that drives the root task. A root task that was
/// never polled is polled at once. An idle one is polled when a notification
/// is queued, which leaves the queue together with its copies.
pub open spec fn root_stepped(root: Option<Task>, queue: Seq<Notification>) -> RootTurn {
    match root {
        None => RootTurn { root, queue, step: RootStep::NotStarted },
        Some(t) => match t.state {
            TaskState::Completed => RootTurn { root, queue, step: RootStep::Finished },
            TaskState::Created => RootTurn { root: Some(t.began()), queue, step: RootStep::Poll },
            _ => if queue.len() == 0 {
                RootTurn { root, queue, step: RootStep::Wait }
            } else {
                RootTurn {
                    root: Some(t.began()),
                    queue: without(queue.subrange(1, queue.len() as int), queue[0].id),
                    step: if t.state == TaskState::Idle {
                        RootStep::Poll
                    } else {
                        RootStep::Deferred
                    },
                }
            },
        },
    }
}

/// The two queues after a poll step of the root task was reported, with the
/// outcome.
pub struct RootEnd {
    pub main_queue: Seq<Notification>,
    pub worker_queue: Seq<Notification>,
    pub outcome: RootOutcome,
}

/// The end of a poll step of the root task `t`. When the root task is ready
/// the shutdown sentinel goes to the worker. When it is not, it is queued
/// again at once if a wake was noted while it was polled.
pub open spec fn root_finished(
    t: Task,
    main_queue: Seq<Notification>,
    worker_queue: Seq<Notification>,
    ready: bool,
) -> RootEnd {
    if ready {
        RootEnd {
            main_queue,
            worker_queue: worker_queue.push(Notification::new(SHUTDOWN_ID)),
            outcome: RootOutcome::Finished,
        }
    } else if t.rewake {
        RootEnd {
            main_queue: main_queue.push(Notification::new(ROOT_ID)),
            worker_queue,
            outcome: RootOutcome::Requeued,
        }
    } else {
        RootEnd { main_queue, worker_queue, outcome: RootOutcome::Parked }
    }
}

/// The queue `queue` of the loop `lane` after a wake through `w`: the
/// notification of `w` joins the queue of the loop that `w` sends to, and
/// the other queue stays as it is.
pub open spec fn woken(queue: Seq<Notification>, lane: SenderId, w: Waker) -> Seq<Notification> {
    if w.sender == lane {
        queue.push(Notification::new(w.id))
    } else {
        queue
    }
}

/// Whether a wake for the task `id` waits to be served: its notification is
/// queued, or it was noted on the task while the task was being polled.
pub open spec fn wake_pending(tasks: Map<usize, Task>, queue: Seq<Notification>, id: u64) -> bool {
    queue.contains(Notification::new(id)) || (has_task(tasks, id) && tasks[id as usize].rewake)
}

/// Whether a wake for the root task waits to be served.
pub open spec fn root_wake_pending(root: Option<Task>, queue: Seq<Notification>) -> bool {
    queue.len() > 0 || (root.is_some() && root.unwrap().rewake)
}

/// What is in a queue stays in it when more is sent.
pub proof fn lemma_push_keeps(q: Seq<Notification>, sent: Notification, n: Notification)
    ensures
        q.push(sent).contains(sent),
        q.contains(n) ==> q.push(sent).contains(n),
{
    assert(q.push(sent)[q.len() as int] == sent);
    if q.contains(n) {
        let i = choose|i: int| 0 <= i < q.len() && q[i] == n;
        assert(q.push(sent)[i] == n);
    }
}

/// What is queued behind the oldest notification is still queued when that
/// one has been taken.
pub proof fn lemma_rest_keeps(q: Seq<Notification>, n: Notification)
    requires
        q.len() > 0,
        q.contains(n),
        n != q[0],
    ensures
        q.subrange(1, q.len() as int).contains(n),
{
    let i = choose|i: int| 0 <= i < q.len() && q[i] == n;
    assert(q.subrange(1, q.len() as int)[i - 1] == n);
}

/// At most one poll of a task is in flight. A step of the worker loop asks
/// for a poll only of a task that is not being polled, and that task alone
/// enters `Polling`; every other task stays in or out of `Polling` as it
/// was.
pub proof fn lemma_single_in_flight(tasks: Map<usize, Task>, queue: Seq<Notification>, k: usize)
    requires
        tasks.contains_key(k),
    ensures
        ({
            let turn = worker_stepped(tasks, queue);
            &&& turn.tasks.contains_key(k)
            &&& tasks[k].state == TaskState::Polling ==> turn.step != WorkerStep::Poll(k as u64)
            &&& turn.step == WorkerStep::Poll(k as u64) ==> tasks[k].pollable()
            &&& turn.step == WorkerStep::Poll(k as u64) ==> turn.tasks[k].state == TaskState::Polling
            &&& turn.step != WorkerStep::Poll(k as u64) ==> turn.tasks[k].state == tasks[k].state
        }),
{
    let turn = worker_stepped(tasks, queue);
    if queue.len() > 0 {
        let n = queue[0];
        if n.id != SHUTDOWN_ID && has_task(tasks, n.id) {
            if n.id as usize == k {
                assert(k as u64 == n.id);
            } else {
                assert(turn.step != WorkerStep::Poll(k as u64)) by {
                    if k < SLOT_LIMIT {
                        assert((k as u64) as usize == k);
                    }
                }
            }
        } else if n.id != SHUTDOWN_ID {
            assert(turn.step == WorkerStep::Skip(n.id));
        }
    }
}

/// A poll in flight ends only when it is reported: the report for one task
/// leaves every other task as it was.
pub proof fn lemma_finish_leaves_others(
    tasks: Map<usize, Task>,
    queue: Seq<Notification>,
    id: u64,
    ready: bool,
    k: usize,
)
    requires
        tasks.contains_key(k),
        k != id as usize,
    ensures
        poll_finished(tasks, queue, id, ready).tasks.contains_key(k),
        poll_finished(tasks, queue, id, ready).tasks[k] == tasks[k],
{
}

/// No wake is lost in a step of the worker loop. A wake that waits for the
/// task `id` still waits after the step, unless the step asks for a poll of
/// that task or finds that the task is gone.
pub proof fn lemma_step_keeps_wakes(tasks: Map<usize, Task>, queue: Seq<Notification>, id: u64)
    requires
        wake_pending(tasks, queue, id),
        id != SHUTDOWN_ID,
    ensures
        ({
            let turn = worker_stepped(tasks, queue);
            ||| wake_pending(turn.tasks, turn.queue, id)
            ||| turn.step == WorkerStep::Poll(id)
            ||| turn.step == WorkerStep::Skip(id)
        }),
{
    let turn = worker_stepped(tasks, queue);
    if queue.len() > 0 {
        let n = queue[0];
        let rest = queue.subrange(1, queue.len() as int);
        let wanted = Notification { id };
        if n.id != id {
            if queue.contains(wanted) {
                lemma_rest_keeps(queue, wanted);
                if n.id != SHUTDOWN_ID {
                    lemma_without_contains(rest, n.id, wanted);
                }
                assert(turn.queue.contains(wanted));
            } else {
                assert(has_task(tasks, id) && tasks[id as usize].rewake);
                if has_task(tasks, n.id) {
                    assert(id as usize != n.id as usize);
                }
                assert(has_task(turn.tasks, id) && turn.tasks[id as usize].rewake);
            }
        } else if has_task(tasks, id) {
            assert(turn.tasks[id as usize] == tasks[id as usize].began());
        }
    }
}

/// Many wakes make one poll: when a step asks for a poll of a task, no
/// notification for that task is left in the queue.
pub proof fn lemma_poll_coalesces(tasks: Map<usize, Task>, queue: Seq<Notification>, id: u64)
    requires
        worker_stepped(tasks, queue).step == WorkerStep::Poll(id),
    ensures
        !worker_stepped(tasks, queue).queue.contains(Notification::new(id)),
{
    lemma_without_contains(queue.subrange(1, queue.len() as int), id, Notification::new(id));
}

/// No wake is lost when a poll ends. A wake that waits for the task `id`
/// still waits after any report, except that a completed task has no use
/// for its own wakes. A task that was woken while it was polled and is
/// not ready is queued again.
pub proof fn lemma_finish_keeps_wakes(
    tasks: Map<usize, Task>,
    queue: Seq<Notification>,
    done: u64,
    ready: bool,
    id: u64,
)
    requires
        has_task(tasks, done),
        wake_pending(tasks, queue, id),
        id != done || !ready,
    ensures
        ({
            let turn = poll_finished(tasks, queue, done, ready);
            &&& id == done ==> turn.queue.contains(Notification::new(id))
            &&& id != done ==> wake_pending(turn.tasks, turn.queue, id)
        }),
{
    let wanted = Notification { id };
    lemma_push_keeps(queue, Notification { id: done }, wanted);
    if id != done && has_task(tasks, id) {
        assert(id as usize != done as usize);
    }
}

/// No wake of the root task is lost in a step of the root loop. A wake that
/// waits still waits after the step, unless the step asks for a poll or
/// finds the root task completed; and while a notification is queued the
/// loop is never told to wait.
pub proof fn lemma_root_step_keeps_wakes(root: Option<Task>, queue: Seq<Notification>)
    requires
        root.is_some(),
        root_wake_pending(root, queue),
    ensures
        ({
            let turn = root_stepped(root, queue);
            ||| turn.step == RootStep::Poll
            ||| turn.step == RootStep::Finished
            ||| root_wake_pending(turn.root, turn.queue)
        }),
        queue.len() > 0 ==> root_stepped(root, queue).step != RootStep::Wait,
{
}

/// No wake of the root task is lost when its poll ends: where the root task
/// is not ready and a wake waits, a notification is queued afterwards.
pub proof fn lemma_root_finish_keeps_wakes(
    t: Task,
    main_queue: Seq<Notification>,
    worker_queue: Seq<Notification>,
)
    requires
        root_wake_pending(Some(t), main_queue),
    ensures
        root_finished(t, main_queue, worker_queue, false).main_queue.len() > 0,
{
}

/// The root task is never polled twice at once: the root loop asks for a
/// poll only of a root task at rest.
pub proof fn lemma_root_single_in_flight(root: Option<Task>, queue: Seq<Notification>)
    ensures
        root_stepped(root, queue).step == RootStep::Poll ==> root.is_some()
            && root.unwrap().pollable() && root_stepped(root, queue).root.unwrap().state
            == TaskState::Polling,
        root.is_some() && root.unwrap().state == TaskState::Polling ==> root_stepped(
            root,
            queue,
        ).root.unwrap().state == TaskState::Polling,
{
}

/// What the executor's invariant asks of the task stored under `k`: it sits
/// under its own id, below the slot limit, sends to the worker and has not
/// completed.
pub open spec fn task_ok(tasks: Map<usize, Task>, k: usize) -> bool {
    &&& k < SLOT_LIMIT
    &&& tasks[k].id == k
    &&& tasks[k].sender == SenderId::Worker
    &&& tasks[k].state != TaskState::Completed
}

/// A spawned task never has a reserved id.
pub proof fn lemma_ids_not_reserved(tasks: Map<usize, Task>, k: usize)
    requires
        task_ok(tasks, k),
    ensures
        !Notification::reserved(tasks[k].id),
{
}

/// The tasks stay in order through a change of the table that touches at
/// most the task under `key` and leaves that one, if it is there, in order.
proof fn lemma_tasks_stay_ok(before: Map<usize, Task>, after: Map<usize, Task>, key: usize)
    requires
        forall|k: usize| before.contains_key(k) ==> #[trigger] task_ok(before, k),
        forall|k: usize|
            k != key && #[trigger] after.contains_key(k) ==> before.contains_key(k) && after[k]
                == before[k],
        after.contains_key(key) ==> task_ok(after, key),
    ensures
        forall|k: usize| after.contains_key(k) ==> #[trigger] task_ok(after, k),
{
    assert forall|k: usize| after.contains_key(k) implies #[trigger] task_ok(after, k) by {
        if k != key {
            assert(task_ok(before, k));
        }
    }
}

/// The scheduling state of the runtime.
pub struct Executor {
    storage: Slab<Task>,
    chan: ChannelPair<Notification>,
    o_chan: ChannelPair<Notification>,
    reactor: Reactor,
    root: Option<Task>,
}

impl Executor {
    /// The spawned tasks that have not completed, by id.
    pub closed spec fn tasks(&self) -> Map<usize, Task> {
        task_entries(self.storage)
    }

    /// The id that the next spawned task will get.
    pub closed spec fn vacant(&self) -> usize {
        task_vacant(self.storage)
    }

    /// The notifications that wait for the loop that drives the root task.
    pub closed spec fn main_queue(&self) -> Seq<Notification> {
        self.chan@
    }

    /// The notifications that wait for the worker loop.
    pub closed spec fn worker_queue(&self) -> Seq<Notification> {
        self.o_chan@
    }

    /// The root task, once there is one.
    pub closed spec fn root(&self) -> Option<Task> {
        self.root
    }

    /// The reactor.
    pub closed spec fn reactor(&self) -> Reactor {
        self.reactor
    }

    /// Both channels have their receiving ends.
    pub closed spec fn channels_open(&self) -> bool {
        self.chan.is_open() && self.o_chan.is_open()
    }

    /// The executor's invariant. Both channels have their receiving ends,
    /// the vacant id is free, every task in the table is as `task_ok` asks,
    /// and the root task has the root id and sends to the scheduling loop.
    pub open spec fn wf(&self) -> bool {
        &&& self.channels_open()
        &&& !self.tasks().contains_key(self.vacant())
        &&& forall|k: usize| self.tasks().contains_key(k) ==> #[trigger] task_ok(self.tasks(), k)
        &&& self.root().is_some() ==> self.root().unwrap().id == ROOT_ID
            && self.root().unwrap().sender == SenderId::Main
    }

    /// Whether this is an executor as `new` makes it: no task, nothing
    /// queued, no root task and no source registered.
    pub open spec fn fresh(&self) -> bool {
        &&& self.wf()
        &&& self.tasks() == Map::<usize, Task>::empty()
        &&& self.vacant() == 0
        &&& self.main_queue() == Seq::<Notification>::empty()
        &&& self.worker_queue() == Seq::<Notification>::empty()
        &&& self.root().is_none()
        &&& self.reactor().wf()
        &&& self.reactor()@ == Map::<usize, crate::iosource::IoSource>::empty()
        &&& self.reactor().vacant() == 0
    }

    /// An executor with no task, nothing queued and no source registered.
    pub fn new() -> (e: Executor)
        ensures
            e.fresh(),
    {
        let e = Executor {
            storage: tasks_with_capacity(4096),
            chan: ChannelPair::new(),
            o_chan: ChannelPair::new(),
            reactor: Reactor::new(),
            root: None,
        };
        assert(e.tasks() =~= Map::<usize, Task>::empty());
        e
    }

    /// Builds the executor in `slot`, once: a slot that holds an executor
    /// is left as it is. Says whether the executor was built now.
    pub fn build(slot: &mut Option<Executor>) -> (built: bool)
        ensures
            built == old(slot).is_none(),
            final(slot).is_some(),
            built ==> final(slot).unwrap().fresh(),
            !built ==> *final(slot) == *old(slot),
    {
        if slot.is_none() {
            *slot = Some(Executor::new());
            true
        } else {
            false
        }
    }

    /// The executor in `slot`, or the report that none was built.
    pub fn get(slot: &Option<Executor>) -> (r: Result<&Executor, NotRunning>)
        ensures
            slot.is_none() ==> r == Err::<&Executor, NotRunning>(NotRunning),
            slot.is_some() ==> r is Ok && *r->Ok_0 == slot.unwrap(),
    {
        match slot {
            Some(e) => Ok(e),
            None => Err(NotRunning),
        }
    }

    /// The executor in `slot`, to change it, or the report that none was
    /// built.
    pub fn get_mut(slot: &mut Option<Executor>) -> (r: Result<&mut Executor, NotRunning>)
        ensures
            old(slot).is_none() ==> r is Err && final(slot).is_none(),
            old(slot).is_some() ==> r is Ok && *r->Ok_0 == old(slot).unwrap() && *final(slot)
                == Some(*final(r->Ok_0)),
    {
        match slot.as_mut() {
            Some(e) => Ok(e),
            None => Err(NotRunning),
        }
    }

    /// The reactor.
    pub fn get_reactor(&self) -> (r: &Reactor)
        ensures
            *r == self.reactor(),
    {
        &self.reactor
    }

    /// The reactor, to register sources and to attach and fire wakers.
    pub fn reactor_mut(&mut self) -> (r: &mut Reactor)
        ensures
            *r == old(self).reactor(),
            final(self).reactor() == *final(r),
            final(self).tasks() == old(self).tasks(),
            final(self).vacant() == old(self).vacant(),
            final(self).main_queue() == old(self).main_queue(),
            final(self).worker_queue() == old(self).worker_queue(),
            final(self).root() == old(self).root(),
            final(self).wf() == old(self).wf(),
    {
        &mut self.reactor
    }

    /// The task stored under `id`, if there is one.
    pub fn task(&self, id: u64) -> (t: Option<&Task>)
        requires
            self.wf(),
        ensures
            t.is_some() == has_task(self.tasks(), id),
            t.is_some() ==> *t.unwrap() == self.tasks()[id as usize],
    {
        if id >= SLOT_LIMIT as u64 {
            proof {
                if self.tasks().contains_key(id as usize) {
                    assert(task_ok(self.tasks(), id as usize));
                }
            }
            None
        } else {
            tasks_get(&self.storage, id as usize)
        }
    }

    /// The root task, once there is one.
    pub fn root_task(&self) -> (t: Option<&Task>)
        ensures
            t.is_some() == self.root().is_some(),
            t.is_some() ==> *t.unwrap() == self.root().unwrap(),
    {
        self.root.as_ref()
    }

    /// The number of notifications that wait for the worker loop.
    pub fn worker_backlog(&self) -> (n: usize)
        ensures
            n == self.worker_queue().len(),
    {
        self.o_chan.len()
    }

    /// The number of notifications that wait for the root loop.
    pub fn main_backlog(&self) -> (n: usize)
        ensures
            n == self.main_queue().len(),
    {
        self.chan.len()
    }

    /// Spawns a task. It gets the vacant id, enters the table as `Created`
    /// and is queued for its first poll by the worker loop. The handle to
    /// its output is returned. When the table is full nothing changes.
    pub fn spawn<T>(&mut self) -> (r: Result<TaskHandle<T>, SpawnError>)
        requires
            old(self).wf(),
        ensures
            final(self).wf(),
            final(self).main_queue() == old(self).main_queue(),
            final(self).root() == old(self).root(),
            final(self).reactor() == old(self).reactor(),
            r is Ok <==> old(self).vacant() < SLOT_LIMIT,
            r is Err ==> final(self).tasks() == old(self).tasks(),
            r is Err ==> final(self).vacant() == old(self).vacant(),
            r is Err ==> final(self).worker_queue() == old(self).worker_queue(),
            r is Ok ==> r->Ok_0.id() == old(self).vacant() && r->Ok_0@ is Waiting,
            r is Ok ==> final(self).tasks() == old(self).tasks().insert(
                old(self).vacant(),
                spawned_task(old(self).vacant() as u64),
            ),
            r is Ok ==> final(self).worker_queue() == old(self).worker_queue().push(
                Notification::new(old(self).vacant() as u64),
            ),
    {
        let num: usize = tasks_vacant_key(&self.storage);
        if num >= SLOT_LIMIT {
            return Err(SpawnError::TableFull);
        }
        let (task, note, handle) = Task::new::<T>(num as u64, SenderId::Worker);
        let key: usize = tasks_insert(&mut self.storage, task);
        let _ = self.o_chan.send(note);
        proof {
            lemma_tasks_stay_ok(old(self).tasks(), self.tasks(), key);
        }
        Ok(handle)
    }

    /// Delivers the wake of `w`: its notification joins the queue of the
    /// loop that `w` sends to. The waker itself is left to its owner.
    pub fn wake(&mut self, w: &Waker)
        requires
            old(self).wf(),
        ensures
            final(self).wf(),
            final(self).tasks() == old(self).tasks(),
            final(self).vacant() == old(self).vacant(),
            final(self).root() == old(self).root(),
            final(self).reactor() == old(self).reactor(),
            final(self).main_queue() == woken(old(self).main_queue(), SenderId::Main, *w),
            final(self).worker_queue() == woken(old(self).worker_queue(), SenderId::Worker, *w),
    {
        match w.sender {
            SenderId::Main => {
                let _ = w.wake_by_ref(&mut self.chan);
            },
            SenderId::Worker => {
                let _ = w.wake_by_ref(&mut self.o_chan);
            },
        }
    }

    /// One step of the worker loop: takes the oldest notification from the
    /// worker's queue and decides what it calls for.
    pub fn worker_step(&mut self) -> (step: WorkerStep)
        requires
            old(self).wf(),
        ensures
            final(self).wf(),
            final(self).vacant() == old(self).vacant(),
            final(self).main_queue() == old(self).main_queue(),
            final(self).root() == old(self).root(),
            final(self).reactor() == old(self).reactor(),
            final(self).tasks() == worker_stepped(
                old(self).tasks(),
                old(self).worker_queue(),
            ).tasks,
            final(self).worker_queue() == worker_stepped(
                old(self).tasks(),
                old(self).worker_queue(),
            ).queue,
            step == worker_stepped(old(self).tasks(), old(self).worker_queue()).step,
    {
        let head = self.o_chan.recv();
        let step = match head {
            None => WorkerStep::Wait,
            Some(n) => {
                if n.id == SHUTDOWN_ID {
                    WorkerStep::Stop
                } else {
                    let _ = self.o_chan.discard(n.id);
                    if n.id >= SLOT_LIMIT as u64 {
                        WorkerStep::Skip(n.id)
                    } else {
                        match tasks_get_mut(&mut self.storage, n.id as usize) {
                            None => WorkerStep::Skip(n.id),
                            Some(task) => {
                                if task.begin_poll() {
                                    WorkerStep::Poll(n.id)
                                } else if task.is_completed() {
                                    WorkerStep::Skip(n.id)
                                } else {
                                    WorkerStep::Deferred(n.id)
                                }
                            },
                        }
                    }
                }
            },
        };
        proof {
            let changed: usize = if has_task(old(self).tasks(), old(self).worker_queue()[0].id) {
                old(self).worker_queue()[0].id as usize
            } else {
                0
            };
            assert(old(self).tasks().contains_key(changed) ==> task_ok(old(self).tasks(), changed));
            lemma_tasks_stay_ok(old(self).tasks(), self.tasks(), changed);
        }
        step
    }

    /// Reports the end of the poll step of the spawned task `id`, which
    /// found the computation ready or not. A ready task leaves the table,
    /// and its id is the next to be given out.
    pub fn finish_poll(&mut self, id: u64, ready: bool) -> (outcome: PollOutcome)
        requires
            old(self).wf(),
            has_task(old(self).tasks(), id),
            old(self).tasks()[id as usize].state == TaskState::Polling,
        ensures
            final(self).wf(),
            final(self).main_queue() == old(self).main_queue(),
            final(self).root() == old(self).root(),
            final(self).reactor() == old(self).reactor(),
            final(self).tasks() == poll_finished(
                old(self).tasks(),
                old(self).worker_queue(),
                id,
                ready,
            ).tasks,
            final(self).worker_queue() == poll_finished(
                old(self).tasks(),
                old(self).worker_queue(),
                id,
                ready,
            ).queue,
            outcome == poll_finished(
                old(self).tasks(),
                old(self).worker_queue(),
                id,
                ready,
            ).outcome,
            ready ==> final(self).vacant() == id,
            !ready ==> final(self).vacant() == old(self).vacant(),
    {
        let key: usize = id as usize;
        let outcome = if ready {
            let mut task = tasks_remove(&mut self.storage, key);
            let _ = task.end_poll(true);
            PollOutcome::Completed(task)
        } else {
            let entry = tasks_get_mut(&mut self.storage, key);
            let task = entry.unwrap();
            let again = task.end_poll(false);
            if again {
                let _ = self.o_chan.send(Notification { id });
                PollOutcome::Requeued
            } else {
                PollOutcome::Parked
            }
        };
        proof {
            assert(task_ok(old(self).tasks(), key));
            lemma_tasks_stay_ok(old(self).tasks(), self.tasks(), key);
        }
        outcome
    }

    /// Cancels the spawned task `id`: it leaves the table, whatever its
    /// state, and is handed back so that what it owns can be released. Its
    /// id is the next to be given out. Where there is no such task nothing
    /// changes.
    pub fn cancel(&mut self, id: u64) -> (task: Option<Task>)
        requires
            old(self).wf(),
        ensures
            final(self).wf(),
            final(self).main_queue() == old(self).main_queue(),
            final(self).worker_queue() == old(self).worker_queue(),
            final(self).root() == old(self).root(),
            final(self).reactor() == old(self).reactor(),
            task.is_some() == has_task(old(self).tasks(), id),
            task.is_some() ==> task.unwrap() == old(self).tasks()[id as usize],
            task.is_some() ==> final(self).tasks() == old(self).tasks().remove(id as usize),
            task.is_some() ==> final(self).vacant() == id,
            task.is_none() ==> final(self).tasks() == old(self).tasks(),
            task.is_none() ==> final(self).vacant() == old(self).vacant(),
    {
        if self.task(id).is_none() {
            return None;
        }
        let task = tasks_remove(&mut self.storage, id as usize);
        proof {
            lemma_tasks_stay_ok(old(self).tasks(), self.tasks(), id as usize);
        }
        Some(task)
    }

    /// Makes the root task, with the reserved root id, unless there is one
    /// already. Says whether it was made.
    pub fn start(&mut self) -> (started: bool)
        requires
            old(self).wf(),
        ensures
            final(self).wf(),
            started == old(self).root().is_none(),
            started ==> final(self).root() == Some(root_task()),
            !started ==> final(self).root() == old(self).root(),
            final(self).tasks() == old(self).tasks(),
            final(self).vacant() == old(self).vacant(),
            final(self).main_queue() == old(self).main_queue(),
            final(self).worker_queue() == old(self).worker_queue(),
            final(self).reactor() == old(self).reactor(),
    {
        let started = self.root.is_none();
        if started {
            self.root = Some(
                Task {
                    id: ROOT_ID,
                    sender: SenderId::Main,
                    state: TaskState::Created,
                    rewake: false,
                    waker: None,
                },
            );
        }
        started
    }

    /// One step of the loop that drives the root task.
    pub fn root_step(&mut self) -> (step: RootStep)
        requires
            old(self).wf(),
        ensures
            final(self).wf(),
            final(self).tasks() == old(self).tasks(),
            final(self).vacant() == old(self).vacant(),
            final(self).worker_queue() == old(self).worker_queue(),
            final(self).reactor() == old(self).reactor(),
            final(self).root() == root_stepped(old(self).root(), old(self).main_queue()).root,
            final(self).main_queue() == root_stepped(
                old(self).root(),
                old(self).main_queue(),
            ).queue,
            step == root_stepped(old(self).root(), old(self).main_queue()).step,
    {
        let step = match &mut self.root {
            None => RootStep::NotStarted,
            Some(task) => {
                match task.state {
                    TaskState::Completed => RootStep::Finished,
                    TaskState::Created => {
                        let _ = task.begin_poll();
                        RootStep::Poll
                    },
                    _ => {
                        match self.chan.recv() {
                            None => RootStep::Wait,
                            Some(n) => {
                                let _ = self.chan.discard(n.id);
                                if task.begin_poll() {
                                    RootStep::Poll
                                } else {
                                    RootStep::Deferred
                                }
                            },
                        }
                    },
                }
            },
        };
        step
    }

    /// Reports the end of the poll step of the root task. When it is ready
    /// the shutdown sentinel is sent to the worker loop.
    pub fn finish_root(&mut self, ready: bool) -> (outcome: RootOutcome)
        requires
            old(self).wf(),
            old(self).root().is_some(),
            old(self).root().unwrap().state == TaskState::Polling,
        ensures
            final(self).wf(),
            final(self).tasks() == old(self).tasks(),
            final(self).vacant() == old(self).vacant(),
            final(self).reactor() == old(self).reactor(),
            final(self).root() == Some(old(self).root().unwrap().ended(ready)),
            final(self).main_queue() == root_finished(
                old(self).root().unwrap(),
                old(self).main_queue(),
                old(self).worker_queue(),
                ready,
            ).main_queue,
            final(self).worker_queue() == root_finished(
                old(self).root().unwrap(),
                old(self).main_queue(),
                old(self).worker_queue(),
                ready,
            ).worker_queue,
            outcome == root_finished(
                old(self).root().unwrap(),
                old(self).main_queue(),
                old(self).worker_queue(),
                ready,
            ).outcome,
    {
        let mut task = self.root.take().unwrap();
        let again = task.end_poll(ready);
        self.root = Some(task);
        let outcome = if ready {
            let _ = self.o_chan.send(Notification::shutdown());
            RootOutcome::Finished
        } else if again {
            let _ = self.chan.send(Notification::root());
            RootOutcome::Requeued
        } else {
            RootOutcome::Parked
        };
        outcome
    }
}

} // verus!
