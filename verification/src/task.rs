//! Tasks and the handles to their results.
//!
//! A [`Task`] is the scheduler's record of one computation: who it is, where
//! its wakes go and where it stands in its life. The computation itself is
//! resumed by the caller between [`Task::begin_poll`] and
//! [`Task::end_poll`]. A [`TaskHandle`] holds the result once there is one and
//! gives it out a single time.

use crate::note::{Notification, SenderId};
use crate::waker::Waker;
use vstd::prelude::*;

verus! {

/// Where a task stands in its life.
#[derive(Clone, Copy, Debug, PartialEq, Eq, Structural)]
pub enum TaskState {
    /// Made, and never polled.
    Created,
    /// Not being polled; waits for a wake.
    Idle,
    /// A poll step is in progress.
    Polling,
    /// The computation has produced its output. Nothing follows.
    Completed,
}

/// What one resumption of a computation gives.
#[derive(Debug, PartialEq, Eq)]
pub enum Poll<T> {
    /// The computation is done, with this output.
    Ready(T),
    /// The computation cannot go on yet.
    Pending,
}

/// The scheduler's record of one computation.
#[derive(Debug, PartialEq, Eq, Structural)]
pub struct Task {
    pub id: u64,
    pub sender: SenderId,
    pub state: TaskState,
    /// A wake came in while the task was being polled and is owed a poll.
    pub rewake: bool,
    /// The waker to hand to the computation at its next poll.
    pub waker: Option<Waker>,
}

impl Task {
    /// Whether a poll step may start now.
    pub open spec fn pollable(&self) -> bool {
        self.state == TaskState::Created || self.state == TaskState::Idle
    }

    /// The task after an attempt to start a poll step. A task at rest goes
    /// to `Polling`; one that is being polled notes the wake it owes; a
    /// completed one stays as it is.
    pub open spec fn began(&self) -> Task {
        match self.state {
            TaskState::Created | TaskState::Idle => Task {
                state: TaskState::Polling,
                rewake: false,
                ..*self
            },
            TaskState::Polling => Task { rewake: true, ..*self },
            TaskState::Completed => *self,
        }
    }

    /// The task after a poll step that found the computation ready or not.
    pub open spec fn ended(&self, ready: bool) -> Task {
        Task {
            state: if ready {
                TaskState::Completed
            } else {
                TaskState::Idle
            },
            rewake: false,
            ..*self
        }
    }

    /// A task that was never polled, the notification that names it, and
    /// the handle to its future result.
    pub fn new<T>(id: u64, sender: SenderId) -> (r: (Task, Notification, TaskHandle<T>))
        ensures
            r.0 == (Task { id, sender, state: TaskState::Created, rewake: false, waker: None }),
            r.1.id == id,
            r.2.id() == id,
            r.2@ is Waiting,
    {
        (
            Task { id, sender, state: TaskState::Created, rewake: false, waker: None },
            Notification { id },
            TaskHandle::new(id),
        )
    }

    /// Installs the waker to use at the next poll and hands back the one it
    /// displaces.
    pub fn attach_waker(&mut self, waker: Waker) -> (displaced: Option<Waker>)
        ensures
            displaced == old(self).waker,
            *final(self) == (Task { waker: Some(waker), ..*old(self) }),
    {
        let displaced = self.waker.take();
        self.waker = Some(waker);
        displaced
    }

    /// Tries to start a poll step and says whether it started. It starts
    /// only from rest, so a task is never polled twice at once; a wake that
    /// finds the task being polled is noted and not lost.
    pub fn begin_poll(&mut self) -> (started: bool)
        ensures
            started == old(self).pollable(),
            *final(self) == old(self).began(),
    {
        match self.state {
            TaskState::Created | TaskState::Idle => {
                self.state = TaskState::Polling;
                self.rewake = false;
                true
            },
            TaskState::Polling => {
                self.rewake = true;
                false
            },
            TaskState::Completed => false,
        }
    }

    /// Ends the poll step in progress. `ready` says whether the computation
    /// produced its output. The result says whether the task is owed
    /// another poll at once, because a wake came in during this one.
    pub fn end_poll(&mut self, ready: bool) -> (again: bool)
        requires
            old(self).state == TaskState::Polling,
        ensures
            *final(self) == old(self).ended(ready),
            again == (!ready && old(self).rewake),
    {
        let again = !ready && self.rewake;
        self.rewake = false;
        if ready {
            self.state = TaskState::Completed;
        } else {
            self.state = TaskState::Idle;
        }
        again
    }

    /// Whether the computation has produced its output.
    pub fn is_completed(&self) -> (b: bool)
        ensures
            b == (self.state == TaskState::Completed),
    {
        match self.state {
            TaskState::Completed => true,
            _ => false,
        }
    }
}

/// What a handle holds of its task's output.
pub enum HandleState<T> {
    /// No output yet.
    Waiting,
    /// The output, not yet given out.
    Ready(T),
    /// The output has been given out.
    Taken,
}

impl<T> HandleState<T> {
    /// What a poll of the handle gives in this state.
    pub open spec fn poll_result(self) -> Poll<T> {
        match self {
            HandleState::Ready(v) => Poll::Ready(v),
            _ => Poll::Pending,
        }
    }

    /// The state after a poll of the handle.
    pub open spec fn after_poll(self) -> HandleState<T> {
        match self {
            HandleState::Ready(_) => HandleState::Taken,
            s => s,
        }
    }

    /// The state after the task reported `output`.
    pub open spec fn after_complete(self, output: T) -> HandleState<T> {
        match self {
            HandleState::Waiting => HandleState::Ready(output),
            s => s,
        }
    }

    /// The state after `n` polls.
    pub open spec fn after_polls(self, n: nat) -> HandleState<T>
        decreases n,
    {
        if n == 0 {
            self
        } else {
            self.after_polls((n - 1) as nat).after_poll()
        }
    }
}

/// An output is delivered at most once: after a poll that gave the output,
/// no later poll gives anything, however many follow, and a second
/// completion changes nothing.
pub proof fn lemma_output_delivered_once<T>(s: HandleState<T>, n: nat, late: T)
    requires
        s is Ready,
    ensures
        s.after_poll().after_polls(n) is Taken,
        s.after_poll().after_polls(n).poll_result() is Pending,
        s.after_poll().after_polls(n).after_complete(late) is Taken,
    decreases n,
{
    if n > 0 {
        lemma_output_delivered_once(s, (n - 1) as nat, late);
    }
}

/// Nothing is made up: a handle whose task has not completed gives no
/// output, however often it is polled.
pub proof fn lemma_no_output_before_completion<T>(n: nat)
    ensures
        HandleState::<T>::Waiting.after_polls(n) is Waiting,
        HandleState::<T>::Waiting.after_polls(n).poll_result() is Pending,
    decreases n,
{
    if n > 0 {
        lemma_no_output_before_completion::<T>((n - 1) as nat);
    }
}

/// The spawner's handle to a task's output.
pub struct TaskHandle<T> {
    id: u64,
    slot: Option<T>,
    taken: bool,
}

impl<T> View for TaskHandle<T> {
    type V = HandleState<T>;

    closed spec fn view(&self) -> HandleState<T> {
        if self.taken {
            HandleState::Taken
        } else {
            match self.slot {
                Some(v) => HandleState::Ready(v),
                None => HandleState::Waiting,
            }
        }
    }
}

impl<T> TaskHandle<T> {
    /// The id of the task whose output this handle waits for.
    pub closed spec fn id(&self) -> u64 {
        self.id
    }

    /// A handle for the task `id`, which has produced nothing yet.
    pub fn new(id: u64) -> (h: TaskHandle<T>)
        ensures
            h.id() == id,
            h@ is Waiting,
    {
        TaskHandle { id, slot: None, taken: false }
    }

    /// The id of the task whose output this handle waits for.
    pub fn task_id(&self) -> (id: u64)
        ensures
            id == self.id(),
    {
        self.id
    }

    /// Whether the output is there and has not been given out.
    pub fn is_ready(&self) -> (b: bool)
        ensures
            b == (self@ is Ready),
    {
        !self.taken && self.slot.is_some()
    }

    /// Stores the task's output. Only the first output is accepted: a
    /// handle that holds or has given out an output hands a later one back
    /// and stays as it is.
    pub fn complete(&mut self, output: T) -> (r: Result<(), T>)
        ensures
            final(self).id() == old(self).id(),
            final(self)@ == old(self)@.after_complete(output),
            old(self)@ is Waiting ==> r == Ok::<(), T>(()),
            !(old(self)@ is Waiting) ==> r == Err::<(), T>(output),
    {
        if self.taken || self.slot.is_some() {
            Err(output)
        } else {
            self.slot = Some(output);
            Ok(())
        }
    }

    /// Polls for the output: `Ready` with the output the first time it is
    /// there, `Pending` before that and ever after.
    pub fn poll(&mut self) -> (p: Poll<T>)
        ensures
            final(self).id() == old(self).id(),
            p == old(self)@.poll_result(),
            final(self)@ == old(self)@.after_poll(),
    {
        if self.taken {
            return Poll::Pending;
        }
        match self.slot.take() {
            Some(v) => {
                self.taken = true;
                Poll::Ready(v)
            },
            None => Poll::Pending,
        }
    }

    /// Moves the output of a completed task into `dest`. The output must be
    /// there: it is read once, and never before completion.
    pub fn read_output(&mut self, dest: &mut Option<T>)
        requires
            old(self)@ is Ready,
        ensures
            final(self).id() == old(self).id(),
            *final(dest) == Some(old(self)@->Ready_0),
            final(self)@ is Taken,
    {
        let out = self.slot.take();
        self.taken = true;
        *dest = out;
    }
}

} // verus!
