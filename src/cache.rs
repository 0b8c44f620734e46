use vstd::prelude::*;
use crate::time::Timestamp;

verus! {

/// A value that knows the instant after which it must no longer be served.
pub trait HasTtl {
    /// The deadline of this value: it is still valid at this very instant and
    /// expired at every later one.
    spec fn deadline(&self) -> Timestamp;

    /// Reports the deadline of this value.
    fn valid_until(&self) -> (r: Timestamp)
        ensures
            r == self.deadline(),
    ;
}

/// A value paired with its own deadline, for values that do not carry one.
#[derive(Clone, Copy, Debug, PartialEq, Eq)]
pub struct Expiring<V> {
    pub value: V,
    pub valid_until: Timestamp,
}

impl<V> HasTtl for Expiring<V> {
    open spec fn deadline(&self) -> Timestamp {
        self.valid_until
    }

    fn valid_until(&self) -> (r: Timestamp) {
        self.valid_until
    }
}

/// Keeps at most one value. Its deadline is asked of the value itself; the
/// slot keeps no expiry of its own.
pub enum TtlCache<T> {
    Empty,
    Filled { value: T },
}

impl<T> Default for TtlCache<T> {
    fn default() -> (r: Self)
        ensures
            r is Empty,
    {
        TtlCache::Empty
    }
}

impl<T> TtlCache<T> {
    /// Replaces whatever the slot holds by `value` and hands out the stored value.
    pub fn insert(&mut self, value: T) -> (r: &mut T)
        ensures
            *r == value,
            *final(self) == (TtlCache::Filled { value: *final(r) }),
    {
        *self = TtlCache::Filled { value };
        match self {
            TtlCache::Filled { value } => value,
            TtlCache::Empty => vstd::pervasive::unreached(),
        }
    }
}

/// Whether a value with deadline `deadline` must no longer be served at `now`:
/// only an instant strictly after the deadline expires it.
pub open spec fn expired(deadline: Timestamp, now: Timestamp) -> bool {
    now@ > deadline@
}

impl<T: HasTtl> TtlCache<T> {
    /// Whether the slot holds a value that has expired at `now`.
    pub open spec fn holds_expired(self, now: Timestamp) -> bool {
        match self {
            TtlCache::Filled { value } => expired(value.deadline(), now),
            TtlCache::Empty => false,
        }
    }

    /// The slot once a value that has expired at `now` is dropped.
    pub open spec fn cleared_at(self, now: Timestamp) -> TtlCache<T> {
        if self.holds_expired(now) {
            TtlCache::Empty
        } else {
            self
        }
    }

    /// Whether an access at `now` has to ask for a fresh value: the slot is
    /// empty, or what it holds has expired.
    pub open spec fn needs_refresh(self, now: Timestamp) -> bool {
        self.cleared_at(now) is Empty
    }

    /// The slot after an access at `now` whose refresh, where one was needed,
    /// came back with `produced`. Only a success is kept.
    pub open spec fn after_access<E>(self, now: Timestamp, produced: Result<T, E>) -> TtlCache<T> {
        if self.needs_refresh(now) {
            match produced {
                Ok(value) => TtlCache::Filled { value },
                Err(_) => TtlCache::Empty,
            }
        } else {
            self
        }
    }

    /// Drops the held value if it has expired at `now`.
    pub fn clear_if_expired(&mut self, now: Timestamp)
        ensures
            *final(self) == old(self).cleared_at(now),
    {
        let expired = match self {
            TtlCache::Filled { value } => now.is_after(&value.valid_until()),
            TtlCache::Empty => false,
        };
        if expired {
            *self = TtlCache::Empty;
        }
    }

    /// Hands out the held value if it is still valid at `valid_until_at_least`;
    /// otherwise drops it, calls `update` once and keeps its value if it
    /// succeeds. A failure of `update` is returned as it is and leaves the slot
    /// empty.
    pub fn try_get_or_update_with<E, F: FnOnce() -> Result<T, E>>(
        &mut self,
        valid_until_at_least: Timestamp,
        update: F,
    ) -> (r: Result<&mut T, E>)
        requires
            old(self).needs_refresh(valid_until_at_least) ==> update.requires(()),
        ensures
            match r {
                Ok(v) => {
                    &&& *final(self) == (TtlCache::Filled { value: *final(v) })
                    &&& (TtlCache::Filled { value: *v }) == old(self).after_access(
                        valid_until_at_least,
                        Ok::<T, E>(*v),
                    )
                    &&& old(self).needs_refresh(valid_until_at_least) ==> update.ensures((), Ok::<T, E>(*v))
                },
                Err(e) => {
                    &&& old(self).needs_refresh(valid_until_at_least)
                    &&& update.ensures((), Err::<T, E>(e))
                    &&& *final(self) == old(self).after_access(valid_until_at_least, Err::<T, E>(e))
                },
            },
    {
        self.clear_if_expired(valid_until_at_least);
        match self {
            TtlCache::Empty => match update() {
                Ok(value) => Ok(self.insert(value)),
                Err(e) => Err(e),
            },
            TtlCache::Filled { value } => Ok(value),
        }
    }
}

} // verus!
