//! Host-facing capability registration and the query entry point.
//!
//! A host environment may hand the library a zero-argument predicate that
//! the library consults before doing further work.  The capability is
//! stored with single-initialization semantics: the first successful
//! registration wins, later registrations are no-ops that leave the stored
//! predicate untouched, and before any registration the absent predicate is
//! treated as a negative decision.

use vstd::prelude::*;
use crate::once::Once;
use crate::once::OnceState;
use crate::once::OnceView;
use crate::mutex::SpinMutex;

verus! {

/// A slot for one host-supplied predicate, filled at most once.
pub struct CallbackRegistry<F> {
    slot: Once<F>,
}

impl<F: Fn() -> bool> CallbackRegistry<F> {
    /// The slot is well formed, was never poisoned (registration cannot
    /// fail), and any stored predicate may be called.
    pub closed spec fn wf(&self) -> bool {
        self.slot.wf() && !(self.slot@ is Running) && !(self.slot@ is Poisoned) && (self.slot@
            matches OnceView::Complete(g) ==> call_requires(g, ()))
    }

    /// The registered predicate, if any.
    pub closed spec fn callback(&self) -> Option<F> {
        match self.slot@ {
            OnceView::Complete(g) => Some(g),
            _ => None,
        }
    }

    /// Create a registry with no predicate registered.
    pub fn new() -> (r: Self)
        ensures
            r.wf(),
            r.callback() is None,
    {
        CallbackRegistry { slot: Once::new() }
    }

    /// Register `f` as the decision predicate.  The first registration
    /// stores `f` and reports `true`; any later registration is a no-op
    /// that leaves the first predicate authoritative and reports `false`.
    pub fn register(&mut self, f: F) -> (fresh: bool)
        requires
            old(self).wf(),
            call_requires(f, ()),
        ensures
            final(self).wf(),
            fresh == (old(self).callback() is None),
            old(self).callback() is None ==> final(self).callback() == Some(f),
            old(self).callback() matches Some(g) ==> final(self).callback() == Some(g),
    {
        match self.slot.snapshot() {
            OnceState::Complete => false,
            OnceState::Incomplete => {
                let thunk = (move || -> (res: F)
                    ensures
                        res == f,
                    {
                        f
                    });
                match self.slot.call_once(thunk) {
                    Ok(_) => true,
                    Err(_) => vstd::pervasive::unreached(),
                }
            },
            _ => vstd::pervasive::unreached(),
        }
    }

    /// Consult the registered predicate; an empty registry decides
    /// negatively by convention.
    pub fn consult(&self) -> (r: bool)
        requires
            self.wf(),
        ensures
            self.callback() is None ==> r == false,
            self.callback() matches Some(g) ==> call_ensures(g, (), r),
    {
        match self.slot.get() {
            Some(cb) => cb(),
            None => false,
        }
    }
}

/// The re-enterable query entry point offered to the host: consult the
/// registered predicate (no predicate means a negative decision), and on a
/// positive decision attempt one non-blocking read of the guarded state,
/// answering with the sentinel `0` when the state is unavailable because
/// some holder has it locked.
pub fn query<F: Fn() -> bool>(reg: &CallbackRegistry<F>, state: &mut SpinMutex<u64>) -> (r: u64)
    requires
        reg.wf(),
        old(state).wf(),
    ensures
        final(state).wf(),
        final(state).is_locked() == old(state).is_locked(),
        !old(state).is_locked() ==> final(state).value() == old(state).value(),
        reg.callback() is None ==> r == 0,
        old(state).is_locked() ==> r == 0,
        reg.callback() matches Some(g) ==> (!old(state).is_locked() ==> exists|b: bool|
            #[trigger] call_ensures(g, (), b) && r == (if b {
                old(state).value()
            } else {
                0u64
            })),
{
    if reg.consult() {
        match state.try_lock() {
            Some(g) => {
                let v: u64 = *g.get();
                state.unlock(g);
                v
            },
            None => 0,
        }
    } else {
        0
    }
}

} // verus!
