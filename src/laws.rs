//! Facts about a sequence of accesses to a slot, stated over the model that
//! the accessor's contract uses.
use vstd::prelude::*;
use crate::cache::{HasTtl, TtlCache};
use crate::time::Timestamp;

verus! {

/// A fresh slot holds nothing, so its first access asks for a value, and a
/// success is what the slot then holds.
pub proof fn lemma_fresh_slot_refreshes<T: HasTtl, E>(now: Timestamp, produced: T)
    ensures
        TtlCache::<T>::Empty.needs_refresh(now),
        TtlCache::<T>::Empty.after_access(now, Ok::<T, E>(produced)) == (TtlCache::Filled {
            value: produced,
        }),
{
}

/// A value stored by an access at `t1` is served again, without a refresh, by
/// an access at a later `t2` up to its deadline.
pub proof fn lemma_cached_value_is_reused<T: HasTtl, E>(
    value: T,
    t1: Timestamp,
    t2: Timestamp,
    produced_later: Result<T, E>,
)
    requires
        t1@ < t2@ <= value.deadline()@,
    ensures
        TtlCache::<T>::Empty.needs_refresh(t1),
        TtlCache::<T>::Empty.after_access(t1, Ok::<T, E>(value)) == (TtlCache::Filled { value }),
        !(TtlCache::Filled { value }).needs_refresh(t2),
        (TtlCache::Filled { value }).after_access(t2, produced_later) == (TtlCache::Filled { value }),
{
}

/// An access strictly after the deadline of the held value drops it and asks
/// for a fresh one.
pub proof fn lemma_expiry_triggers_refresh<T: HasTtl>(value: T, now: Timestamp)
    requires
        now@ > value.deadline()@,
    ensures
        (TtlCache::Filled { value }).cleared_at(now) is Empty,
        (TtlCache::Filled { value }).needs_refresh(now),
{
}

/// A held value is still served at its deadline itself, and at no instant
/// after it.
pub proof fn lemma_deadline_is_inclusive<T: HasTtl>(value: T)
    ensures
        !(TtlCache::Filled { value }).needs_refresh(value.deadline()),
        forall|now: Timestamp| #[trigger]
            (TtlCache::Filled { value }).needs_refresh(now) <==> now@ > value.deadline()@,
{
}

/// A failed refresh of an empty slot leaves it empty, so the next access, at
/// the same instant or any other, asks again.
pub proof fn lemma_failure_is_not_cached<T: HasTtl, E>(now: Timestamp, error: E, later: Timestamp)
    ensures
        TtlCache::<T>::Empty.after_access(now, Err::<T, E>(error)) is Empty,
        TtlCache::<T>::Empty.after_access(now, Err::<T, E>(error)).needs_refresh(later),
{
}

/// A failed refresh of an expired value leaves the slot empty: the expired
/// value is not kept.
pub proof fn lemma_failed_refresh_drops_expired<T: HasTtl, E>(value: T, now: Timestamp, error: E)
    requires
        now@ > value.deadline()@,
    ensures
        (TtlCache::Filled { value }).after_access(now, Err::<T, E>(error)) is Empty,
{
}

} // verus!
