//! A spin-based mutual-exclusion primitive over an owned value.
//!
//! The mutex owns exactly one value; a [`SpinMutexGuard`] is issued on
//! successful acquisition, and while a guard is live the protected value is
//! reachable only through it.  Handing the guard back to [`SpinMutex::unlock`]
//! is the only way to return the lock to its unlocked state, so a guard can
//! be released exactly once and two guards for the same mutex can never be
//! live at the same time.
//!
//! Acquiring a mutex that is already held by the same execution context
//! (the only holder a caller with exclusive access can race against) is a
//! forbidden re-entrant use: the blocking path would spin forever.  The
//! contracts therefore demand an unlocked mutex on the blocking path and
//! report contention through an empty result on the non-blocking one.

use vstd::prelude::*;
use crate::relax::RelaxStrategy;
use crate::relax::Spin;

verus! {

/// A transient handle that witnesses "I currently hold the lock"; it owns
/// the protected value for the duration of the critical section.
pub struct SpinMutexGuard<T> {
    value: T,
}

impl<T> View for SpinMutexGuard<T> {
    type V = T;

    closed spec fn view(&self) -> T {
        self.value
    }
}

impl<T> SpinMutexGuard<T> {
    /// Read the protected value through the guard.
    pub fn get(&self) -> (r: &T)
        ensures
            *r == self@,
    {
        &self.value
    }

    /// Mutate the protected value through the guard.
    pub fn get_mut(&mut self) -> (r: &mut T)
        ensures
            *r == old(self)@,
            final(self)@ == *final(r),
    {
        &mut self.value
    }

    /// Replace the protected value, returning the previous one.
    pub fn replace(&mut self, value: T) -> (prev: T)
        ensures
            prev == old(self)@,
            final(self)@ == value,
    {
        let mut value = value;
        core::mem::swap(&mut self.value, &mut value);
        value
    }
}

/// Mutual exclusion over one owned value of type `T`, with an atomic lock
/// word whose states are unlocked and locked.
pub struct SpinMutex<T> {
    locked: bool,
    slot: Option<T>,
}

impl<T> SpinMutex<T> {
    /// The lock word and the storage slot agree: the value sits in the slot
    /// exactly while no guard for it is live.
    pub closed spec fn wf(&self) -> bool {
        self.locked <==> self.slot is None
    }

    /// Whether the lock word currently reads locked.
    pub closed spec fn is_locked(&self) -> bool {
        self.locked
    }

    /// The protected value, meaningful while the mutex is unlocked.
    pub closed spec fn value(&self) -> T
        recommends
            !self.is_locked(),
    {
        self.slot->0
    }

    /// Create an unlocked mutex protecting `value`.
    pub fn new(value: T) -> (r: Self)
        ensures
            r.wf(),
            !r.is_locked(),
            r.value() == value,
    {
        SpinMutex { locked: false, slot: Some(value) }
    }

    /// One acquisition attempt: on contention, report an empty result at
    /// once instead of spinning.  This is the designated path for contexts
    /// that must not block.
    pub fn try_lock(&mut self) -> (r: Option<SpinMutexGuard<T>>)
        requires
            old(self).wf(),
        ensures
            final(self).wf(),
            final(self).is_locked(),
            old(self).is_locked() ==> r is None && *final(self) == *old(self),
            !old(self).is_locked() ==> (r matches Some(g) && g@ == old(self).value()),
    {
        if self.locked {
            None
        } else {
            self.locked = true;
            match self.slot.take() {
                Some(value) => Some(SpinMutexGuard { value }),
                None => vstd::pervasive::unreached(),
            }
        }
    }

    /// Acquire the lock, spinning with the backoff policy `R` until the
    /// attempt succeeds.  A caller holding exclusive access to the mutex can
    /// only contend with itself, and re-entrant acquisition is forbidden, so
    /// the contract demands an unlocked mutex.
    pub fn lock_with<R: RelaxStrategy>(&mut self) -> (g: SpinMutexGuard<T>)
        requires
            old(self).wf(),
            !old(self).is_locked(),
        ensures
            final(self).wf(),
            final(self).is_locked(),
            g@ == old(self).value(),
    {
        loop
            invariant
                self.wf(),
                !self.is_locked(),
                self.value() == old(self).value(),
            decreases 0int,
        {
            match self.try_lock() {
                Some(g) => {
                    return g;
                },
                None => {
                    R::relax();
                },
            }
        }
    }

    /// Acquire the lock with the default backoff policy.
    pub fn lock(&mut self) -> (g: SpinMutexGuard<T>)
        requires
            old(self).wf(),
            !old(self).is_locked(),
        ensures
            final(self).wf(),
            final(self).is_locked(),
            g@ == old(self).value(),
    {
        self.lock_with::<Spin>()
    }

    /// Release the lock by handing its guard back, storing the value the
    /// guard carries.  Consuming the guard is what makes a double release
    /// impossible: after this call the guard no longer exists.
    pub fn unlock(&mut self, g: SpinMutexGuard<T>)
        requires
            old(self).wf(),
            old(self).is_locked(),
        ensures
            final(self).wf(),
            !final(self).is_locked(),
            final(self).value() == g@,
    {
        self.slot = Some(g.value);
        self.locked = false;
    }
}

/// One fetch-and-increment of a counter done entirely under the lock: the
/// update can neither be lost nor observed half-done, because the value is
/// reachable only through the guard while it happens.
pub fn increment_under_lock(m: &mut SpinMutex<u64>)
    requires
        old(m).wf(),
        !old(m).is_locked(),
        old(m).value() < u64::MAX,
    ensures
        final(m).wf(),
        !final(m).is_locked(),
        final(m).value() == old(m).value() + 1,
{
    let mut g = m.lock();
    let v: u64 = *g.get();
    let _prev = g.replace(v + 1);
    m.unlock(g);
}

/// `n` lock-protected increments lose no update: the counter ends exactly
/// `n` above where it started, however the attempts are ordered.
pub fn increment_many(m: &mut SpinMutex<u64>, n: u64)
    requires
        old(m).wf(),
        !old(m).is_locked(),
        old(m).value() + n <= u64::MAX,
    ensures
        final(m).wf(),
        !final(m).is_locked(),
        final(m).value() == old(m).value() + n,
{
    let mut i: u64 = 0;
    while i < n
        invariant
            m.wf(),
            !m.is_locked(),
            i <= n,
            old(m).value() + n <= u64::MAX,
            m.value() == old(m).value() + i,
        decreases n - i,
    {
        increment_under_lock(m);
        i = i + 1;
    }
}

} // verus!
