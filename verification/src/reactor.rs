//! The reactor's table of registered sources and the decisions it makes:
//! which token a new source gets, which waker stays attached, and which
//! wakers a readiness report fires. Waiting for the operating system is
//! left to the caller, who hands in what it reported.

pub use crate::iosource::Direction;
use crate::iosource::{Event, Fired, IoSource};
use crate::tables::{
    source_entries, source_vacant, sources_get, sources_get_mut, sources_insert,
    sources_vacant_key, sources_with_capacity, SLOT_LIMIT,
};
use crate::waker::{SharedNote, Waker};
use slab::Slab;
use vstd::prelude::*;

verus! {

/// Why a source could not be registered.
#[derive(Debug)]
pub enum RegisterError<E> {
    /// The table has no slot left below the slot limit.
    Full,
    /// The operating system refused the registration, with this error.
    Os(E),
}

/// The table of registered sources, by token.
pub struct Reactor {
    sources: Slab<IoSource>,
}

/// The wakers in `f`, the reading one first.
pub open spec fn wakers_of(f: Fired) -> Seq<Waker> {
    let read = match f.read {
        Some(w) => seq![w],
        None => Seq::<Waker>::empty(),
    };
    let write = match f.write {
        Some(w) => seq![w],
        None => Seq::<Waker>::empty(),
    };
    read + write
}

/// The table `m` after the reports `events`, taken in order: each report
/// takes the wakers it fires off its source.
pub open spec fn after_events(m: Map<usize, IoSource>, events: Seq<Event>) -> Map<usize, IoSource>
    decreases events.len(),
{
    if events.len() == 0 {
        m
    } else {
        let before = after_events(m, events.drop_last());
        let e = events.last();
        before.insert(e.token, before[e.token].after_event(e.readable, e.writable))
    }
}

/// The wakers that the reports `events` fire on the table `m`, in the order
/// in which they fire.
pub open spec fn fired_by_events(m: Map<usize, IoSource>, events: Seq<Event>) -> Seq<Waker>
    decreases events.len(),
{
    if events.len() == 0 {
        Seq::<Waker>::empty()
    } else {
        let before = after_events(m, events.drop_last());
        let e = events.last();
        fired_by_events(m, events.drop_last()) + wakers_of(
            before[e.token].fired_by(e.readable, e.writable),
        )
    }
}

/// Whether every report in `events` is about a source of the table `m`.
pub open spec fn all_registered(m: Map<usize, IoSource>, events: Seq<Event>) -> bool {
    forall|i: int| 0 <= i < events.len() ==> m.contains_key(#[trigger] events[i].token)
}

/// The table `m` after a waker `w` was offered to the source `token` for
/// `dir`: an equivalent waker stays as it is, anything else gives way.
pub open spec fn after_attach(
    m: Map<usize, IoSource>,
    token: usize,
    dir: Direction,
    w: Waker,
) -> Map<usize, IoSource> {
    if m[token].waker(dir) == Some(w) {
        m
    } else {
        m.insert(token, m[token].with_waker(dir, Some(w)))
    }
}

/// Reports never add or remove a source.
pub proof fn lemma_after_events_dom(m: Map<usize, IoSource>, events: Seq<Event>)
    requires
        all_registered(m, events),
    ensures
        after_events(m, events).dom() == m.dom(),
    decreases events.len(),
{
    if events.len() > 0 {
        let front = events.drop_last();
        assert forall|i: int| 0 <= i < front.len() implies m.contains_key(
            #[trigger] front[i].token,
        ) by {
            assert(front[i] == events[i]);
        }
        lemma_after_events_dom(m, front);
        assert(m.contains_key(events[events.len() - 1].token));
        assert(after_events(m, events).dom() =~= m.dom());
    }
}

/// A waker that was replaced is never invoked: once `w` has taken the place
/// of another waker for `dir` on `token`, no report on that source fires
/// anything but `w` in that direction.
pub proof fn lemma_replaced_waker_never_fires(
    m: Map<usize, IoSource>,
    token: usize,
    dir: Direction,
    w: Waker,
    readable: bool,
    writable: bool,
)
    requires
        m.contains_key(token),
    ensures
        after_attach(m, token, dir, w)[token].waker(dir) == Some(w),
        ({
            let fired = after_attach(m, token, dir, w)[token].fired_by(readable, writable);
            match dir {
                Direction::Read => fired.read.is_some() ==> fired.read == Some(w),
                Direction::Write => fired.write.is_some() ==> fired.write == Some(w),
            }
        }),
{
}

/// A report on one source leaves every other source as it was, with its
/// wakers attached.
pub proof fn lemma_event_leaves_others(m: Map<usize, IoSource>, e: Event, other: usize)
    requires
        m.contains_key(e.token),
        m.contains_key(other),
        other != e.token,
    ensures
        after_events(m, seq![e])[other] == m[other],
{
    let one = seq![e];
    assert(one.len() == 1 && one.last() == e);
    assert(one.drop_last() =~= Seq::<Event>::empty());
    assert(after_events(m, one.drop_last()) == m);
}

impl View for Reactor {
    type V = Map<usize, IoSource>;

    closed spec fn view(&self) -> Map<usize, IoSource> {
        source_entries(self.sources)
    }
}

impl Reactor {
    /// The token that the next registered source will get.
    pub closed spec fn vacant(&self) -> usize {
        source_vacant(self.sources)
    }

    /// The table's invariant: the vacant token is free, and every source
    /// is stored under its own token.
    pub open spec fn wf(&self) -> bool {
        &&& !self@.contains_key(self.vacant())
        &&& forall|t: usize| self@.contains_key(t) ==> (#[trigger] self@[t]).token == t
    }

    /// A reactor with no source registered.
    pub fn new() -> (r: Reactor)
        ensures
            r.wf(),
            r@ == Map::<usize, IoSource>::empty(),
            r.vacant() == 0,
    {
        let r = Reactor { sources: sources_with_capacity(1024) };
        assert(r@ =~= Map::<usize, IoSource>::empty());
        r
    }

    /// The token that the next registration will use, or `None` when the
    /// table has no slot left. The caller registers the source with the
    /// operating system under this token and reports how that went to
    /// [`Reactor::register`].
    pub fn vacant_token(&self) -> (t: Option<usize>)
        ensures
            t == if self.vacant() < SLOT_LIMIT {
                Some(self.vacant())
            } else {
                None
            },
    {
        let key: usize = sources_vacant_key(&self.sources);
        if key < SLOT_LIMIT {
            Some(key)
        } else {
            None
        }
    }

    /// Whether a source is registered under `token`.
    pub fn is_registered(&self, token: usize) -> (b: bool)
        ensures
            b == self@.contains_key(token),
    {
        sources_get(&self.sources, token).is_some()
    }

    /// The source registered under `token`, if there is one.
    pub fn get(&self, token: usize) -> (s: Option<&IoSource>)
        ensures
            s.is_some() == self@.contains_key(token),
            s.is_some() ==> *s.unwrap() == self@[token],
    {
        sources_get(&self.sources, token)
    }

    /// Completes a registration. `os` is what the operating system answered
    /// when the source was registered under the vacant token. On success
    /// a fresh source is stored under that token, which is returned. A
    /// refusal by the operating system comes back as it is and a full table
    /// is reported as such; in both cases nothing changes.
    pub fn register<E>(&mut self, os: Result<(), E>) -> (r: Result<usize, RegisterError<E>>)
        requires
            old(self).wf(),
        ensures
            final(self).wf(),
            old(self).vacant() >= SLOT_LIMIT ==> r is Err && r->Err_0 is Full,
            old(self).vacant() < SLOT_LIMIT && os is Err ==> r is Err && r->Err_0
                == RegisterError::Os(os->Err_0),
            old(self).vacant() < SLOT_LIMIT && os is Ok ==> r is Ok,
            r is Ok ==> r->Ok_0 == old(self).vacant(),
            r is Err ==> final(self)@ == old(self)@ && final(self).vacant() == old(self).vacant(),
            r is Ok ==> final(self)@ == old(self)@.insert(
                old(self).vacant(),
                IoSource::new(old(self).vacant()),
            ),
    {
        let token: usize = sources_vacant_key(&self.sources);
        if token >= SLOT_LIMIT {
            return Err(RegisterError::Full);
        }
        match os {
            Err(e) => Err(RegisterError::Os(e)),
            Ok(_) => {
                let key: usize = sources_insert(&mut self.sources, IoSource::new(token));
                Ok(key)
            },
        }
    }

    /// Attaches the waker of the polling task, whose shared notification is
    /// `cx`, to the source `token` for `dir`. Where an equivalent waker is
    /// attached already, nothing changes and nothing is cloned. Otherwise a
    /// clone of the task's waker takes the place, and the waker that gave
    /// way, if there was one, is handed back to be released.
    pub fn attach_waker(
        &mut self,
        cx: &mut SharedNote,
        token: usize,
        dir: Direction,
    ) -> (displaced: Option<Waker>)
        requires
            old(self).wf(),
            old(self)@.contains_key(token),
            !old(cx).freed(),
            old(cx).refs() < u64::MAX,
        ensures
            final(self).wf(),
            final(self).vacant() == old(self).vacant(),
            final(cx).id() == old(cx).id(),
            final(cx).sender() == old(cx).sender(),
            final(self)@ == after_attach(old(self)@, token, dir, old(cx).handle()),
            old(self)@[token].waker(dir) == Some(old(cx).handle()) ==> displaced.is_none()
                && final(cx).refs() == old(cx).refs(),
            old(self)@[token].waker(dir) != Some(old(cx).handle()) ==> displaced
                == old(self)@[token].waker(dir) && final(cx).refs() == old(cx).refs() + 1,
    {
        let ghost before = self@;
        let mine = Waker { id: cx.notification().id, sender: cx.sender_id() };
        let entry = sources_get_mut(&mut self.sources, token);
        let src = entry.unwrap();
        let attached = match dir {
            Direction::Read => src.get_read_waker(),
            Direction::Write => src.get_write_waker(),
        };
        let keep = match attached {
            Some(w) => w.will_wake(&mine),
            None => false,
        };
        if keep {
            proof {
                assert(self@ =~= before);
            }
            None
        } else {
            let fresh = cx.clone_waker();
            let displaced = match dir {
                Direction::Read => src.change_read_waker(fresh),
                Direction::Write => src.change_write_waker(fresh),
            };
            displaced
        }
    }

    /// Handles one readiness report: the wakers of the reported directions
    /// come off the source and are handed back to be invoked.
    pub fn dispatch(&mut self, event: &Event) -> (fired: Fired)
        requires
            old(self).wf(),
            old(self)@.contains_key(event.token),
        ensures
            final(self).wf(),
            final(self).vacant() == old(self).vacant(),
            fired == old(self)@[event.token].fired_by(event.readable, event.writable),
            final(self)@ == old(self)@.insert(
                event.token,
                old(self)@[event.token].after_event(event.readable, event.writable),
            ),
    {
        let entry = sources_get_mut(&mut self.sources, event.token);
        let src = entry.unwrap();
        if src.has_wakers() {
            src.wake_with_event(event.readable, event.writable)
        } else {
            Fired { read: None, write: None }
        }
    }

    /// Handles the reports of one turn of the event loop, in order, and
    /// returns the wakers to invoke, in the order in which they fired.
    pub fn dispatch_all(&mut self, events: &Vec<Event>) -> (fired: Vec<Waker>)
        requires
            old(self).wf(),
            all_registered(old(self)@, events@),
        ensures
            final(self).wf(),
            final(self).vacant() == old(self).vacant(),
            final(self)@ == after_events(old(self)@, events@),
            fired@ == fired_by_events(old(self)@, events@),
    {
        let mut fired: Vec<Waker> = Vec::new();
        let n: usize = events.len();
        let mut i: usize = 0;
        while i < n
            invariant
                i <= n,
                n == events@.len(),
                self.wf(),
                self.vacant() == old(self).vacant(),
                self@.dom() == old(self)@.dom(),
                all_registered(old(self)@, events@),
                self@ == after_events(old(self)@, events@.take(i as int)),
                fired@ == fired_by_events(old(self)@, events@.take(i as int)),
            decreases n - i,
        {
            let event: Event = events[i];
            proof {
                assert(old(self)@.contains_key(events@[i as int].token));
                assert(events@.take(i + 1).drop_last() == events@.take(i as int));
                assert(events@.take(i + 1).last() == event);
            }
            let ghost before = self@;
            let now = self.dispatch(&event);
            proof {
                assert(self@.dom() =~= before.dom());
            }
            let Fired { read, write } = now;
            match read {
                Some(w) => fired.push(w),
                None => {},
            }
            match write {
                Some(w) => fired.push(w),
                None => {},
            }
            i = i + 1;
        }
        proof {
            assert(events@.take(n as int) == events@);
        }
        fired
    }
}

} // verus!
