//! The core of a minimal asynchronous runtime, written as explicit state
//! machines whose every transition carries a verified contract.
//!
//! The library decides; it never blocks, spawns a thread or touches the
//! operating system. A driver around it resumes the computations, waits
//! for readiness and reports back what happened.
//!
//! - [`note`]: the notification that names a task, and the reserved ids.
//! - [`channel`]: the first-in, first-out queue between wakers and loops.
//! - [`waker`]: wakers and the reference count of what they share.
//! - [`task`]: the life of a task, and the handle that gives its output once.
//! - [`executor`]: the task table and the steps of the two scheduling loops.
//! - [`iosource`], [`reactor`]: registered sources, attached wakers and the
//!   wakers that readiness fires.
//! - [`io`]: asynchronous writing on top of the reactor.
//! - [`tables`]: the slot-reused tables, kept in slabs.
//! - [`demo`]: a computation that is pending once.

pub mod channel;
pub mod demo;
pub mod executor;
pub mod io;
pub mod iosource;
pub mod note;
pub mod reactor;
pub mod tables;
pub mod task;
pub mod waker;
