//! What the reactor keeps for each registered source: at most one waker
//! that waits to read and one that waits to write.

use crate::waker::Waker;
use vstd::prelude::*;

verus! {

/// The direction of I/O that a task waits for.
#[derive(Clone, Copy, Debug, PartialEq, Eq, Structural)]
pub enum Direction {
    Read,
    Write,
}

/// One readiness report: the source it is about and the directions in which
/// that source can now make progress.
#[derive(Clone, Copy, Debug, PartialEq, Eq, Structural)]
pub struct Event {
    pub token: usize,
    pub readable: bool,
    pub writable: bool,
}

/// The wakers that one readiness report took off a source. They are to be
/// invoked, and are attached nowhere any more.
#[derive(Debug, PartialEq, Eq, Structural)]
pub struct Fired {
    pub read: Option<Waker>,
    pub write: Option<Waker>,
}

/// The bookkeeping of one registered source.
#[derive(Debug, PartialEq, Eq, Structural)]
pub struct IoSource {
    pub token: usize,
    pub read_waker: Option<Waker>,
    pub write_waker: Option<Waker>,
}

impl IoSource {
    /// The waker attached for `dir`, if any.
    pub open spec fn waker(&self, dir: Direction) -> Option<Waker> {
        match dir {
            Direction::Read => self.read_waker,
            Direction::Write => self.write_waker,
        }
    }

    /// This source with the waker for `dir` set to `w`.
    pub open spec fn with_waker(&self, dir: Direction, w: Option<Waker>) -> IoSource {
        match dir {
            Direction::Read => IoSource { read_waker: w, ..*self },
            Direction::Write => IoSource { write_waker: w, ..*self },
        }
    }

    /// This source after a readiness report: the waker of each reported
    /// direction is gone, the other stays.
    pub open spec fn after_event(&self, readable: bool, writable: bool) -> IoSource {
        IoSource {
            token: self.token,
            read_waker: if readable {
                None
            } else {
                self.read_waker
            },
            write_waker: if writable {
                None
            } else {
                self.write_waker
            },
        }
    }

    /// What a readiness report takes off this source: the waker of each
    /// reported direction.
    pub open spec fn fired_by(&self, readable: bool, writable: bool) -> Fired {
        Fired {
            read: if readable {
                self.read_waker
            } else {
                None
            },
            write: if writable {
                self.write_waker
            } else {
                None
            },
        }
    }

    /// The source `token` with no waker attached.
    pub open spec fn spec_new(token: usize) -> IoSource {
        IoSource { token, read_waker: None, write_waker: None }
    }

    /// A source with no waker attached.
    #[verifier::when_used_as_spec(spec_new)]
    pub fn new(token: usize) -> (s: IoSource)
        ensures
            s == IoSource::spec_new(token),
    {
        IoSource { token, read_waker: None, write_waker: None }
    }

    /// Whether a waker is attached for either direction.
    pub fn has_wakers(&self) -> (b: bool)
        ensures
            b == (self.read_waker.is_some() || self.write_waker.is_some()),
    {
        self.read_waker.is_some() || self.write_waker.is_some()
    }

    /// The waker that waits to read, if any.
    pub fn get_read_waker(&self) -> (w: Option<&Waker>)
        ensures
            w.is_some() == self.read_waker.is_some(),
            w.is_some() ==> *w.unwrap() == self.read_waker.unwrap(),
    {
        self.read_waker.as_ref()
    }

    /// The waker that waits to write, if any.
    pub fn get_write_waker(&self) -> (w: Option<&Waker>)
        ensures
            w.is_some() == self.write_waker.is_some(),
            w.is_some() ==> *w.unwrap() == self.write_waker.unwrap(),
    {
        self.write_waker.as_ref()
    }

    /// Attaches `w` as the waker that waits to read and hands back the one
    /// it displaces.
    pub fn change_read_waker(&mut self, w: Waker) -> (displaced: Option<Waker>)
        ensures
            displaced == old(self).read_waker,
            *final(self) == old(self).with_waker(Direction::Read, Some(w)),
    {
        let displaced = self.read_waker.take();
        self.read_waker = Some(w);
        displaced
    }

    /// Attaches `w` as the waker that waits to write and hands back the one
    /// it displaces.
    pub fn change_write_waker(&mut self, w: Waker) -> (displaced: Option<Waker>)
        ensures
            displaced == old(self).write_waker,
            *final(self) == old(self).with_waker(Direction::Write, Some(w)),
    {
        let displaced = self.write_waker.take();
        self.write_waker = Some(w);
        displaced
    }

    /// Takes off the waker of each direction that the report names and
    /// hands them back to be invoked. A waker that fired is no longer
    /// attached, so it cannot fire again on a later report.
    pub fn wake_with_event(&mut self, readable: bool, writable: bool) -> (fired: Fired)
        ensures
            fired == old(self).fired_by(readable, writable),
            *final(self) == old(self).after_event(readable, writable),
    {
        let read = if readable {
            self.read_waker.take()
        } else {
            None
        };
        let write = if writable {
            self.write_waker.take()
        } else {
            None
        };
        Fired { read, write }
    }
}

} // verus!
