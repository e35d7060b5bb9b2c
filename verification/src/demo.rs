//! A small computation to try the runtime with: pending once, then ready.

use crate::executor::{woken, Executor};
use crate::note::SenderId;
use crate::task::Poll;
use crate::waker::Waker;
use vstd::prelude::*;

verus! {

/// A computation that is not ready at its first poll, asks to be woken, and
/// is ready from the second poll on.
pub struct Dummy {
    pub ready: bool,
}

impl Dummy {
    /// A computation that was never polled.
    pub fn new() -> (d: Dummy)
        ensures
            !d.ready,
    {
        Dummy { ready: false }
    }

    /// One resumption. The first one answers `Pending` and wakes the task
    /// through `waker`, so that a second poll follows; every later one
    /// answers `Ready` and leaves the executor alone.
    pub fn poll(&mut self, waker: &Waker, exec: &mut Executor) -> (p: Poll<()>)
        requires
            old(exec).wf(),
        ensures
            final(exec).wf(),
            final(self).ready,
            final(exec).tasks() == old(exec).tasks(),
            final(exec).vacant() == old(exec).vacant(),
            final(exec).root() == old(exec).root(),
            final(exec).reactor() == old(exec).reactor(),
            old(self).ready ==> p == Poll::Ready(()),
            old(self).ready ==> final(exec).main_queue() == old(exec).main_queue(),
            old(self).ready ==> final(exec).worker_queue() == old(exec).worker_queue(),
            !old(self).ready ==> p == Poll::<()>::Pending,
            !old(self).ready ==> final(exec).main_queue() == woken(
                old(exec).main_queue(),
                SenderId::Main,
                *waker,
            ),
            !old(self).ready ==> final(exec).worker_queue() == woken(
                old(exec).worker_queue(),
                SenderId::Worker,
                *waker,
            ),
    {
        if self.ready {
            Poll::Ready(())
        } else {
            self.ready = true;
            exec.wake(waker);
            Poll::Pending
        }
    }
}

} // verus!
