//! A priority-tiered shared-resource arbiter: admission control for a
//! finite pool rationed across two consumer classes.
//!
//! The pool is a quantity of abstract resource units (a caller chooses the
//! granularity; fractional budgets are expressed by picking a finer unit)
//! guarded by one [`SpinMutex`], so no two acquisitions act on a stale pool
//! value.  Regular consumers are admitted only while the pool stays above a
//! reservation threshold plus their step, which keeps a floor of the pool
//! for the privileged class; privileged consumers may deplete the pool down
//! to, but not below, one privileged step.  Denial is a normal outcome of
//! exhaustion for that class, not an error, and the pool value never
//! increases over the arbiter's lifetime.

use vstd::prelude::*;
use crate::mutex::SpinMutex;

verus! {

/// A finite resource pool with two admission rules, serialized by a spin
/// mutex.
pub struct Arbiter {
    pool: SpinMutex<u64>,
    threshold: u64,
    regular_step: u64,
    privileged_step: u64,
}

impl Arbiter {
    /// The guarding mutex is well formed and at rest between operations.
    pub closed spec fn wf(&self) -> bool {
        self.pool.wf() && !self.pool.is_locked()
    }

    /// The current pool value.
    pub closed spec fn pool(&self) -> u64 {
        self.pool.value()
    }

    /// The reservation line below which regular admission stops.
    pub closed spec fn threshold(&self) -> u64 {
        self.threshold
    }

    /// How much one regular admission consumes.
    pub closed spec fn regular_step(&self) -> u64 {
        self.regular_step
    }

    /// How much one privileged admission consumes.
    pub closed spec fn privileged_step(&self) -> u64 {
        self.privileged_step
    }

    /// Create an arbiter over a starting pool with the given reservation
    /// threshold and per-class step sizes.
    pub fn new(pool: u64, threshold: u64, regular_step: u64, privileged_step: u64) -> (r: Self)
        ensures
            r.wf(),
            r.pool() == pool,
            r.threshold() == threshold,
            r.regular_step() == regular_step,
            r.privileged_step() == privileged_step,
    {
        Arbiter { pool: SpinMutex::new(pool), threshold, regular_step, privileged_step }
    }

    /// Admit a regular consumer: under the mutex, deny if the deduction
    /// would leave the pool at or below the reservation threshold,
    /// otherwise deduct one regular step and return the new pool value.
    pub fn acquire_regular(&mut self) -> (r: Option<u64>)
        requires
            old(self).wf(),
        ensures
            final(self).wf(),
            final(self).threshold() == old(self).threshold(),
            final(self).regular_step() == old(self).regular_step(),
            final(self).privileged_step() == old(self).privileged_step(),
            old(self).pool() <= old(self).threshold() + old(self).regular_step() ==> (r is None
                && final(self).pool() == old(self).pool()),
            old(self).pool() > old(self).threshold() + old(self).regular_step() ==> (r == Some(
                (old(self).pool() - old(self).regular_step()) as u64,
            ) && final(self).pool() == old(self).pool() - old(self).regular_step()),
            final(self).pool() <= old(self).pool(),
    {
        let mut g = self.pool.lock();
        let p: u64 = *g.get();
        let r: Option<u64> = if p <= self.regular_step {
            None
        } else {
            let rest: u64 = p - self.regular_step;
            if rest <= self.threshold {
                None
            } else {
                let _prev = g.replace(rest);
                Some(rest)
            }
        };
        self.pool.unlock(g);
        r
    }

    /// Admit a privileged consumer: under the mutex, deny only if the pool
    /// holds at most one privileged step, otherwise deduct one privileged
    /// step and return the new pool value.  The reservation threshold does
    /// not apply to this class.
    pub fn acquire_privileged(&mut self) -> (r: Option<u64>)
        requires
            old(self).wf(),
        ensures
            final(self).wf(),
            final(self).threshold() == old(self).threshold(),
            final(self).regular_step() == old(self).regular_step(),
            final(self).privileged_step() == old(self).privileged_step(),
            old(self).pool() <= old(self).privileged_step() ==> (r is None && final(self).pool()
                == old(self).pool()),
            old(self).pool() > old(self).privileged_step() ==> (r == Some(
                (old(self).pool() - old(self).privileged_step()) as u64,
            ) && final(self).pool() == old(self).pool() - old(self).privileged_step()),
            final(self).pool() <= old(self).pool(),
    {
        let mut g = self.pool.lock();
        let p: u64 = *g.get();
        let r: Option<u64> = if p <= self.privileged_step {
            None
        } else {
            let rest: u64 = p - self.privileged_step;
            let _prev = g.replace(rest);
            Some(rest)
        };
        self.pool.unlock(g);
        r
    }

    /// A snapshot of the pool, read under the mutex without blocking.
    pub fn current(&mut self) -> (r: u64)
        requires
            old(self).wf(),
        ensures
            final(self).wf(),
            final(self).pool() == old(self).pool(),
            final(self).threshold() == old(self).threshold(),
            final(self).regular_step() == old(self).regular_step(),
            final(self).privileged_step() == old(self).privileged_step(),
            r == old(self).pool(),
    {
        match self.pool.try_lock() {
            Some(g) => {
                let p: u64 = *g.get();
                self.pool.unlock(g);
                p
            },
            None => vstd::pervasive::unreached(),
        }
    }
}

} // verus!
