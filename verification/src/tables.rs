//! The two slot-reused tables, each kept in a `slab::Slab`: the reactor's
//! sources and the executor's tasks.
//!
//! Nothing here is proved: each function states what the `slab` crate does,
//! and the reactor and the executor are verified against these statements.
//! A slab hands out the key of a vacant slot and takes a freed key back
//! into use, so keys stay small however many values come and go.

use crate::iosource::IoSource;
use crate::task::Task;
use slab::Slab;
use vstd::prelude::*;

verus! {

#[verifier::external_type_specification]
#[verifier::external_body]
#[verifier::reject_recursive_types(T)]
pub struct ExSlab<T>(Slab<T>);

/// The most slots a table may come to have. Below it the slab's backing
/// vector stays far under `isize::MAX` bytes, the one condition on which an
/// insertion panics.
pub const SLOT_LIMIT: usize = 0x80_0000;

/// The sources that the slab holds, by key.
pub uninterp spec fn source_entries(s: Slab<IoSource>) -> Map<usize, IoSource>;

/// The key that the slab will give to the next insertion.
pub uninterp spec fn source_vacant(s: Slab<IoSource>) -> usize;

/// `Slab::with_capacity`: an empty slab, whose first key will be 0.
#[verifier::external_body]
pub(crate) fn sources_with_capacity(capacity: usize) -> (table: Slab<IoSource>)
    requires
        capacity <= SLOT_LIMIT,
    ensures
        source_entries(table).dom() == Set::<usize>::empty(),
        source_vacant(table) == 0,
{
    Slab::with_capacity(capacity)
}

/// `Slab::vacant_key`: the key of the next insertion, which holds no value
/// now.
#[verifier::external_body]
pub(crate) fn sources_vacant_key(s: &Slab<IoSource>) -> (key: usize)
    ensures
        key == source_vacant(*s),
        !source_entries(*s).contains_key(key),
{
    s.vacant_key()
}

/// `Slab::insert`: stores `value` under the vacant key and returns that
/// key; the other entries stay, and the new vacant key holds no value.
#[verifier::external_body]
pub(crate) fn sources_insert(s: &mut Slab<IoSource>, value: IoSource) -> (key: usize)
    requires
        source_vacant(*old(s)) < SLOT_LIMIT,
    ensures
        key == source_vacant(*old(s)),
        source_entries(*final(s)) == source_entries(*old(s)).insert(key, value),
        !source_entries(*final(s)).contains_key(source_vacant(*final(s))),
{
    s.insert(value)
}

/// `Slab::get`: the value stored under `key`, if there is one.
#[verifier::external_body]
pub(crate) fn sources_get(s: &Slab<IoSource>, key: usize) -> (r: Option<&IoSource>)
    ensures
        r.is_some() == source_entries(*s).contains_key(key),
        r.is_some() ==> *r.unwrap() == source_entries(*s)[key],
{
    s.get(key)
}

/// `Slab::get_mut`: the value stored under `key`, if there is one, to be
/// changed in place. Nothing else in the slab changes, nor its vacant key.
#[verifier::external_body]
pub(crate) fn sources_get_mut(s: &mut Slab<IoSource>, key: usize) -> (r: Option<&mut IoSource>)
    ensures
        r.is_some() == source_entries(*old(s)).contains_key(key),
        r.is_some() ==> *r.unwrap() == source_entries(*old(s))[key],
        r.is_some() ==> source_entries(*final(s)) == source_entries(*old(s)).insert(
            key,
            *final(r.unwrap()),
        ),
        r.is_none() ==> source_entries(*final(s)) == source_entries(*old(s)),
        source_vacant(*final(s)) == source_vacant(*old(s)),
{
    s.get_mut(key)
}

/// The tasks that the slab holds, by key.
pub uninterp spec fn task_entries(s: Slab<Task>) -> Map<usize, Task>;

/// The key that the slab will give to the next insertion.
pub uninterp spec fn task_vacant(s: Slab<Task>) -> usize;

/// `Slab::with_capacity`: an empty slab, whose first key will be 0.
#[verifier::external_body]
pub(crate) fn tasks_with_capacity(capacity: usize) -> (table: Slab<Task>)
    requires
        capacity <= SLOT_LIMIT,
    ensures
        task_entries(table).dom() == Set::<usize>::empty(),
        task_vacant(table) == 0,
{
    Slab::with_capacity(capacity)
}

/// `Slab::vacant_key`: the key of the next insertion, which holds no value
/// now.
#[verifier::external_body]
pub(crate) fn tasks_vacant_key(s: &Slab<Task>) -> (key: usize)
    ensures
        key == task_vacant(*s),
        !task_entries(*s).contains_key(key),
{
    s.vacant_key()
}

/// `Slab::insert`: stores `value` under the vacant key and returns that
/// key; the other entries stay, and the new vacant key holds no value.
#[verifier::external_body]
pub(crate) fn tasks_insert(s: &mut Slab<Task>, value: Task) -> (key: usize)
    requires
        task_vacant(*old(s)) < SLOT_LIMIT,
    ensures
        key == task_vacant(*old(s)),
        task_entries(*final(s)) == task_entries(*old(s)).insert(key, value),
        !task_entries(*final(s)).contains_key(task_vacant(*final(s))),
{
    s.insert(value)
}

/// `Slab::get`: the value stored under `key`, if there is one.
#[verifier::external_body]
pub(crate) fn tasks_get(s: &Slab<Task>, key: usize) -> (r: Option<&Task>)
    ensures
        r.is_some() == task_entries(*s).contains_key(key),
        r.is_some() ==> *r.unwrap() == task_entries(*s)[key],
{
    s.get(key)
}

/// `Slab::get_mut`: the value stored under `key`, if there is one, to be
/// changed in place. Nothing else in the slab changes, nor its vacant key.
#[verifier::external_body]
pub(crate) fn tasks_get_mut(s: &mut Slab<Task>, key: usize) -> (r: Option<&mut Task>)
    ensures
        r.is_some() == task_entries(*old(s)).contains_key(key),
        r.is_some() ==> *r.unwrap() == task_entries(*old(s))[key],
        r.is_some() ==> task_entries(*final(s)) == task_entries(*old(s)).insert(
            key,
            *final(r.unwrap()),
        ),
        r.is_none() ==> task_entries(*final(s)) == task_entries(*old(s)),
        task_vacant(*final(s)) == task_vacant(*old(s)),
{
    s.get_mut(key)
}

/// `Slab::remove`: takes out and returns the value stored under `key`. The
/// other entries stay, and `key` is the next to be given out again.
#[verifier::external_body]
pub(crate) fn tasks_remove(s: &mut Slab<Task>, key: usize) -> (value: Task)
    requires
        task_entries(*old(s)).contains_key(key),
    ensures
        value == task_entries(*old(s))[key],
        task_entries(*final(s)) == task_entries(*old(s)).remove(key),
        task_vacant(*final(s)) == key,
{
    s.remove(key)
}

} // verus!
