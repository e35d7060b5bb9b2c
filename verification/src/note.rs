//! Notifications: the messages that identify a task to its scheduler.

use vstd::prelude::*;

verus! {

/// The id that tells a worker loop to terminate. Never given to a task.
pub const SHUTDOWN_ID: u64 = 0xffff_ffff_ffff_ffff;

/// The id of the root task. Never given to a spawned task.
pub const ROOT_ID: u64 = 0xffff_ffff_ffff_fffe;

/// Which receiving loop a notification is addressed to.
#[derive(Clone, Copy, Debug, PartialEq, Eq, Hash, Structural)]
pub enum SenderId {
    /// The scheduling loop that drives the root task.
    Main,
    /// The worker loop that drives spawned tasks.
    Worker,
}

/// A message naming one task by its id.
#[derive(Clone, Copy, Debug, PartialEq, Eq, Hash, Structural)]
pub struct Notification {
    pub id: u64,
}

impl Notification {
    /// The notification for the task `id`.
    pub open spec fn spec_new(id: u64) -> Notification {
        Notification { id }
    }

    /// A notification for the task `id`.
    #[verifier::when_used_as_spec(spec_new)]
    pub fn new(id: u64) -> (n: Notification)
        ensures
            n == Notification::spec_new(id),
    {
        Notification { id }
    }

    /// The sentinel that terminates a worker loop.
    pub fn shutdown() -> (n: Notification)
        ensures
            n.id == SHUTDOWN_ID,
    {
        Notification { id: SHUTDOWN_ID }
    }

    /// The notification of the root task.
    pub fn root() -> (n: Notification)
        ensures
            n.id == ROOT_ID,
    {
        Notification { id: ROOT_ID }
    }

    /// Whether `id` is one of the two reserved ids.
    pub open spec fn reserved(id: u64) -> bool {
        id == SHUTDOWN_ID || id == ROOT_ID
    }

    /// Whether this is the shutdown sentinel.
    pub fn is_shutdown(&self) -> (b: bool)
        ensures
            b == (self.id == SHUTDOWN_ID),
    {
        self.id == SHUTDOWN_ID
    }

    /// Whether this names the root task.
    pub fn is_root(&self) -> (b: bool)
        ensures
            b == (self.id == ROOT_ID),
    {
        self.id == ROOT_ID
    }

    /// Whether this carries a reserved id, which no spawned task may have.
    pub fn is_reserved(&self) -> (b: bool)
        ensures
            b == Self::reserved(self.id),
    {
        self.id == SHUTDOWN_ID || self.id == ROOT_ID
    }
}

} // verus!
