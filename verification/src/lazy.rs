//! A deferred singleton: a value initialized on first access.
//!
//! A [`LazyLock`] wraps a [`Once`] cell together with a nullable holder for
//! one initializer.  Whichever execution context performs the
//! initialization empties the holder exactly once; re-entrant access to an
//! emptied holder (only possible when the initializer recursively forces
//! the same singleton) is a fatal contract violation and is answered with a
//! distinct "already consumed" error, never with a stale or default value.

use vstd::prelude::*;
use crate::once::Once;
use crate::once::OnceState;
use crate::once::OnceView;

verus! {

/// The fatal outcomes of forcing a deferred singleton.
#[derive(Clone, Copy, Debug, PartialEq, Eq, Structural)]
pub enum LazyError {
    /// An earlier initialization attempt failed; the underlying cell is
    /// permanently poisoned.
    Poisoned,
    /// The initializer holder was already empty when it was needed: the
    /// singleton was forced from inside its own initializer.
    AlreadyConsumed,
}

/// A value of type `T`, computed by an initializer of type `F` on the
/// first access and shared read-only afterwards.
pub struct LazyLock<T, F> {
    cell: Once<T>,
    init: Option<F>,
}

impl<T, F> LazyLock<T, F> {
    /// The underlying cell is well formed.
    pub closed spec fn wf(&self) -> bool {
        self.cell.wf()
    }

    /// The abstract state of the underlying cell.
    pub closed spec fn cell_state(&self) -> OnceView<T> {
        self.cell@
    }

    /// The initializer holder: full until the initialization consumes it.
    pub closed spec fn initializer(&self) -> Option<F> {
        self.init
    }

    /// The stored value, meaningful once the singleton has been forced.
    pub open spec fn value(&self) -> T
        recommends
            self.cell_state() is Complete,
    {
        self.cell_state()->Complete_0
    }

    /// Create a new lazy value with the given initializing function.
    pub fn new(f: F) -> (r: Self)
        ensures
            r.wf(),
            r.cell_state() is Incomplete,
            r.initializer() == Some(f),
    {
        LazyLock { cell: Once::new(), init: Some(f) }
    }

    /// Non-blocking read: the stored value if the singleton has been
    /// forced, and nothing otherwise.
    pub fn get(&self) -> (r: Option<&T>)
        requires
            self.wf(),
        ensures
            self.cell_state() is Complete ==> (r matches Some(v) && *v == self.value()),
            !(self.cell_state() is Complete) ==> r is None,
    {
        self.cell.get()
    }
}

impl<T, F: FnOnce() -> T> LazyLock<T, F> {
    /// Force the evaluation of this lazy value and return the result.
    ///
    /// The first successful call takes the initializer out of its holder
    /// and runs it exactly once; every later call is side-effect-free and
    /// returns the previously computed value.  A call that finds the holder
    /// already empty poisons the cell and fails with
    /// [`LazyError::AlreadyConsumed`]; a call that finds the cell poisoned
    /// fails with [`LazyError::Poisoned`].
    pub fn force(&mut self) -> (r: Result<&T, LazyError>)
        requires
            old(self).wf(),
            !(old(self).cell_state() is Running),
            old(self).initializer() matches Some(f) ==> call_requires(f, ()),
        ensures
            final(self).wf(),
            old(self).cell_state() is Complete ==> (*final(self) == *old(self) && (r matches Ok(v)
                && *v == old(self).value())),
            old(self).cell_state() is Poisoned ==> ((final(self).cell_state() is Poisoned) && (*final(self)
                == *old(self)) && r == Err::<&T, LazyError>(LazyError::Poisoned)),
            old(self).cell_state() is Incomplete ==> (old(self).initializer() matches Some(f)
                ==> ((r matches Ok(v) && final(self).cell_state() == OnceView::Complete(*v)
                && call_ensures(f, (), *v)) && final(self).initializer() is None)),
            (old(self).cell_state() is Incomplete && old(self).initializer() is None) ==> (
            (final(self).cell_state() is Poisoned) && r == Err::<&T, LazyError>(
                LazyError::AlreadyConsumed,
            )),
    {
        match self.cell.snapshot() {
            OnceState::Complete => match self.cell.get() {
                Some(v) => Ok(v),
                None => vstd::pervasive::unreached(),
            },
            OnceState::Poisoned => Err(LazyError::Poisoned),
            OnceState::Running => vstd::pervasive::unreached(),
            OnceState::Incomplete => match self.init.take() {
                Some(f) => match self.cell.call_once(f) {
                    Ok(v) => Ok(v),
                    Err(_) => vstd::pervasive::unreached(),
                },
                None => {
                    self.cell.mark_poisoned();
                    Err(LazyError::AlreadyConsumed)
                },
            },
        }
    }
}

} // verus!
