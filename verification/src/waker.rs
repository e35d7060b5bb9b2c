//! Wakers and the reference-counted notification behind them.
//!
//! A [`Waker`] is a handle that names one task and the loop that drives it.
//! Every handle made for a task counts as one reference to that task's
//! [`SharedNote`]; the shared notification is freed when the last handle is
//! released.

use crate::channel::ChannelPair;
use crate::note::{Notification, SenderId};
use vstd::prelude::*;

verus! {

/// A handle that wakes one task: it carries the task's id and names the
/// channel on which that id is to be sent. It is not `Clone`: a further
/// handle is made by [`SharedNote::clone_waker`], which counts it.
#[derive(Debug, PartialEq, Eq, Structural)]
pub struct Waker {
    pub id: u64,
    pub sender: SenderId,
}

impl Waker {
    /// Two wakers are equivalent when they wake the same task through the
    /// same channel.
    pub open spec fn equivalent(&self, other: &Waker) -> bool {
        self.id == other.id && self.sender == other.sender
    }

    /// Whether waking `other` would wake the task that `self` wakes.
    pub fn will_wake(&self, other: &Waker) -> (b: bool)
        ensures
            b == self.equivalent(other),
            b == (*self == *other),
    {
        self.id == other.id && self.sender == other.sender
    }

    /// The notification that this waker sends.
    pub fn notification(&self) -> (n: Notification)
        ensures
            n.id == self.id,
    {
        Notification { id: self.id }
    }

    /// Sends this waker's notification on `chan` and keeps the handle. A
    /// channel whose receiving end is gone stays as it was: the wake is
    /// discarded and `false` comes back.
    pub fn wake_by_ref(&self, chan: &mut ChannelPair<Notification>) -> (delivered: bool)
        ensures
            delivered == old(chan).is_open(),
            final(chan).is_open() == old(chan).is_open(),
            delivered ==> final(chan)@ == old(chan)@.push(Notification::new(self.id)),
            !delivered ==> final(chan)@ == old(chan)@,
    {
        let sent = chan.send(Notification { id: self.id });
        sent.is_ok()
    }
}

/// The notification that all wakers of one task share, with the number of
/// handles that refer to it.
pub struct SharedNote {
    note: Notification,
    sender: SenderId,
    refs: u64,
}

/// One step in the life of a shared notification's handles.
#[derive(Clone, Copy, Debug, PartialEq, Eq, Structural)]
pub enum WakerOp {
    /// A handle was cloned.
    Clone,
    /// A handle was released.
    Drop,
}

/// The number of clones in `ops`.
pub open spec fn clones(ops: Seq<WakerOp>) -> nat
    decreases ops.len(),
{
    if ops.len() == 0 {
        0
    } else {
        clones(ops.drop_last()) + if ops.last() == WakerOp::Clone {
            1nat
        } else {
            0nat
        }
    }
}

/// The number of releases in `ops`.
pub open spec fn drops(ops: Seq<WakerOp>) -> nat
    decreases ops.len(),
{
    if ops.len() == 0 {
        0
    } else {
        drops(ops.drop_last()) + if ops.last() == WakerOp::Drop {
            1nat
        } else {
            0nat
        }
    }
}

/// The reference count after one step from `refs`, or `None` where the step
/// is not allowed: nothing may touch a freed notification.
pub open spec fn count_step(refs: nat, op: WakerOp) -> Option<nat> {
    if refs == 0 {
        None
    } else {
        match op {
            WakerOp::Clone => Some(refs + 1),
            WakerOp::Drop => Some((refs - 1) as nat),
        }
    }
}

/// The reference count after the steps `ops` from `refs`, in order, or
/// `None` where one of them is not allowed.
pub open spec fn count_after(refs: nat, ops: Seq<WakerOp>) -> Option<nat>
    decreases ops.len(),
{
    if ops.len() == 0 {
        Some(refs)
    } else {
        match count_after(refs, ops.drop_last()) {
            Some(r) => count_step(r, ops.last()),
            None => None,
        }
    }
}

/// Reference counting neither leaks nor frees early: after any allowed
/// sequence of clones and releases on a freshly made waker, the count is one
/// plus the clones minus the releases, so the notification is freed exactly
/// when there were as many releases as the construction and the clones
/// together.
pub proof fn lemma_freed_iff_balanced(ops: Seq<WakerOp>)
    requires
        count_after(1, ops).is_some(),
    ensures
        count_after(1, ops).unwrap() == 1 + clones(ops) - drops(ops),
        count_after(1, ops).unwrap() == 0 <==> drops(ops) == 1 + clones(ops),
    decreases ops.len(),
{
    if ops.len() > 0 {
        lemma_freed_iff_balanced(ops.drop_last());
    }
}

/// Once the count has reached zero no further step is allowed: a freed
/// notification is never used again.
pub proof fn lemma_freed_is_final(ops: Seq<WakerOp>, op: WakerOp)
    requires
        count_after(1, ops) == Some(0nat),
    ensures
        count_after(1, ops.push(op)).is_none(),
{
    assert(ops.push(op).drop_last() == ops);
}

impl SharedNote {
    /// The task that the shared notification names.
    pub closed spec fn id(&self) -> u64 {
        self.note.id
    }

    /// The channel on which its wakers send.
    pub closed spec fn sender(&self) -> SenderId {
        self.sender
    }

    /// The number of live handles.
    pub closed spec fn refs(&self) -> nat {
        self.refs as nat
    }

    /// Whether the last handle has been released.
    pub open spec fn freed(&self) -> bool {
        self.refs() == 0
    }

    /// What every handle of this shared notification looks like.
    pub open spec fn handle(&self) -> Waker {
        Waker { id: self.id(), sender: self.sender() }
    }

    /// Whether `w` is a handle of this shared notification.
    pub open spec fn owns(&self, w: &Waker) -> bool {
        *w == self.handle()
    }

    /// Builds the first waker for `note`, to send on `sender`: the shared
    /// notification comes into being with that one reference.
    pub fn make_waker(note: Notification, sender: SenderId) -> (r: (SharedNote, Waker))
        ensures
            r.0.id() == note.id,
            r.0.sender() == sender,
            r.0.refs() == 1,
            r.1 == r.0.handle(),
    {
        (SharedNote { note, sender, refs: 1 }, Waker { id: note.id, sender })
    }

    /// Clones a handle: one more reference, and a waker equivalent to every
    /// other handle of this shared notification.
    pub fn clone_waker(&mut self) -> (c: Waker)
        requires
            !old(self).freed(),
            old(self).refs() < u64::MAX,
        ensures
            c == old(self).handle(),
            final(self).id() == old(self).id(),
            final(self).sender() == old(self).sender(),
            Some(final(self).refs()) == count_step(old(self).refs(), WakerOp::Clone),
    {
        self.refs = self.refs + 1;
        Waker { id: self.note.id, sender: self.sender }
    }

    /// Releases the handle `w` and says whether it was the last one, in
    /// which case the shared notification is freed.
    pub fn drop_waker(&mut self, w: Waker) -> (freed: bool)
        requires
            old(self).owns(&w),
            !old(self).freed(),
        ensures
            final(self).id() == old(self).id(),
            final(self).sender() == old(self).sender(),
            Some(final(self).refs()) == count_step(old(self).refs(), WakerOp::Drop),
            freed == final(self).freed(),
    {
        self.refs = self.refs - 1;
        self.refs == 0
    }

    /// Wakes through `w` and consumes it: the notification is sent on
    /// `chan` as by [`Waker::wake_by_ref`], then the handle is released.
    /// Says whether that freed the shared notification.
    pub fn wake(&mut self, w: Waker, chan: &mut ChannelPair<Notification>) -> (freed: bool)
        requires
            old(self).owns(&w),
            !old(self).freed(),
        ensures
            final(self).id() == old(self).id(),
            final(self).sender() == old(self).sender(),
            Some(final(self).refs()) == count_step(old(self).refs(), WakerOp::Drop),
            freed == final(self).freed(),
            final(chan).is_open() == old(chan).is_open(),
            old(chan).is_open() ==> final(chan)@ == old(chan)@.push(Notification::new(w.id)),
            !old(chan).is_open() ==> final(chan)@ == old(chan)@,
    {
        let _ = w.wake_by_ref(chan);
        self.drop_waker(w)
    }

    /// The number of live handles.
    pub fn ref_count(&self) -> (n: u64)
        ensures
            n == self.refs(),
    {
        self.refs
    }

    /// The notification that the handles share.
    pub fn notification(&self) -> (n: Notification)
        ensures
            n.id == self.id(),
    {
        self.note
    }

    /// The channel on which the handles send.
    pub fn sender_id(&self) -> (s: SenderId)
        ensures
            s == self.sender(),
    {
        self.sender
    }
}

} // verus!
