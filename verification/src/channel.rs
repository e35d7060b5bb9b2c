//! A first-in, first-out channel: a sending side and a receiving side over
//! one queue. A receive never blocks: when the queue is empty it says so,
//! and the caller decides how to wait.

use crate::note::Notification;
use std::collections::VecDeque;
use vstd::prelude::*;

verus! {

/// The two ends of one channel. Its view is the queue of messages that were
/// sent and not yet received, oldest first.
pub struct ChannelPair<T> {
    queue: VecDeque<T>,
    open: bool,
}

impl<T> View for ChannelPair<T> {
    type V = Seq<T>;

    closed spec fn view(&self) -> Seq<T> {
        self.queue@
    }
}

impl<T> ChannelPair<T> {
    /// Whether the receiving end still exists.
    pub closed spec fn is_open(&self) -> bool {
        self.open
    }

    /// A channel with nothing in it and both ends alive.
    pub fn new() -> (c: ChannelPair<T>)
        ensures
            c@ == Seq::<T>::empty(),
            c.is_open(),
    {
        ChannelPair { queue: VecDeque::new(), open: true }
    }

    /// Sends `value`. While the receiving end exists the value joins the back
    /// of the queue; once it is gone the value comes back undelivered and
    /// the channel is unchanged.
    pub fn send(&mut self, value: T) -> (r: Result<(), T>)
        ensures
            final(self).is_open() == old(self).is_open(),
            old(self).is_open() ==> r == Ok::<(), T>(()) && final(self)@ == old(self)@.push(value),
            !old(self).is_open() ==> r == Err::<(), T>(value) && final(self)@ == old(self)@,
    {
        if self.open {
            self.queue.push_back(value);
            Ok(())
        } else {
            Err(value)
        }
    }

    /// Takes the oldest message, or `None` when the queue is empty.
    pub fn recv(&mut self) -> (r: Option<T>)
        ensures
            final(self).is_open() == old(self).is_open(),
            old(self)@.len() == 0 ==> r.is_none() && final(self)@ == old(self)@,
            old(self)@.len() > 0 ==> r == Some(old(self)@[0]),
            old(self)@.len() > 0 ==> final(self)@ == old(self)@.subrange(1, old(self)@.len() as int),
    {
        self.queue.pop_front()
    }

    /// Drops the receiving end: what was queued is lost, and later sends
    /// are undeliverable.
    pub fn close(&mut self)
        ensures
            !final(self).is_open(),
            final(self)@ == Seq::<T>::empty(),
    {
        self.queue.clear();
        self.open = false;
    }

    /// The number of queued messages.
    pub fn len(&self) -> (n: usize)
        ensures
            n == self@.len(),
    {
        self.queue.len()
    }

    /// Whether nothing is queued.
    pub fn is_empty(&self) -> (b: bool)
        ensures
            b == (self@.len() == 0),
    {
        self.queue.len() == 0
    }

    /// Whether the receiving end still exists.
    pub fn has_receiver(&self) -> (b: bool)
        ensures
            b == self.is_open(),
    {
        self.open
    }
}

/// `q` with every notification for `id` taken out, the rest in their order.
pub open spec fn without(q: Seq<Notification>, id: u64) -> Seq<Notification>
    decreases q.len(),
{
    if q.len() == 0 {
        q
    } else if q.last().id == id {
        without(q.drop_last(), id)
    } else {
        without(q.drop_last(), id).push(q.last())
    }
}

/// Nothing in `without(q, id)` names `id`, and a notification for another
/// task is in it exactly when it is in `q`.
pub proof fn lemma_without_contains(q: Seq<Notification>, id: u64, n: Notification)
    ensures
        without(q, id).contains(n) <==> (q.contains(n) && n.id != id),
    decreases q.len(),
{
    if q.len() > 0 {
        let front = q.drop_last();
        lemma_without_contains(front, id, n);
        let w = without(front, id);
        if q.contains(n) {
            let i = choose|i: int| 0 <= i < q.len() && q[i] == n;
            if i < q.len() - 1 {
                assert(front[i] == n);
            }
        }
        if front.contains(n) {
            let i = choose|i: int| 0 <= i < front.len() && front[i] == n;
            assert(q[i] == n);
        }
        assert(q[q.len() - 1] == q.last());
        if q.last().id != id {
            let r = w.push(q.last());
            assert(r[w.len() as int] == q.last());
            if w.contains(n) {
                let i = choose|i: int| 0 <= i < w.len() && w[i] == n;
                assert(r[i] == n);
            }
            if r.contains(n) {
                let i = choose|i: int| 0 <= i < r.len() && r[i] == n;
                if i < w.len() {
                    assert(w[i] == n);
                }
            }
        }
    }
}

impl ChannelPair<Notification> {
    /// Takes every queued notification for `id` out of the queue and says
    /// how many there were; the others keep their order.
    pub fn discard(&mut self, id: u64) -> (removed: usize)
        ensures
            final(self).is_open() == old(self).is_open(),
            final(self)@ == without(old(self)@, id),
            removed == old(self)@.len() - final(self)@.len(),
    {
        let n: usize = self.queue.len();
        let mut kept: VecDeque<Notification> = VecDeque::new();
        let mut i: usize = 0;
        while i < n
            invariant
                i <= n,
                n == self.queue@.len(),
                self.queue@ == old(self).queue@,
                self.open == old(self).open,
                kept@ == without(self.queue@.take(i as int), id),
                kept@.len() <= i,
            decreases n - i,
        {
            let item: Notification = self.queue[i];
            proof {
                let next = self.queue@.take(i + 1);
                assert(next.drop_last() == self.queue@.take(i as int));
                assert(next.last() == item);
            }
            if item.id != id {
                kept.push_back(item);
            }
            i = i + 1;
        }
        proof {
            assert(self.queue@.take(n as int) == self.queue@);
        }
        let removed: usize = n - kept.len();
        self.queue = kept;
        removed
    }
}

} // verus!
