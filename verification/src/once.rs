//! A single-initialization cell: a slot that goes from empty to
//! exactly-once-initialized, with poison-on-failure semantics.
//!
//! The state word moves monotonically along
//! `Incomplete -> Running -> (Complete | Poisoned)` and never leaves a
//! terminal state.  Exactly one execution context performs the transition
//! out of `Incomplete` and runs the user-supplied initializer; once the
//! cell is `Complete` the stored value is immutable and shared read-only,
//! and once it is `Poisoned` every later initialization attempt fails with
//! a fatal error instead of re-running the initializer or handing out a
//! default.
//!
//! Calling [`Once::call_once`] again from inside the initializer that is
//! currently running (the only way a caller with exclusive access can
//! observe `Running`) would spin forever on the state word; that re-entrant
//! use is forbidden, and the contracts exclude the `Running` state.

use vstd::prelude::*;

verus! {

/// The state word of a cell.
#[derive(Clone, Copy, Debug, PartialEq, Eq, Structural)]
pub enum OnceState {
    /// No initializer has claimed the cell yet.
    Incomplete,
    /// An initializer is running; everyone else waits.
    Running,
    /// The cell holds its value for good.
    Complete,
    /// The initializer failed; the cell is permanently unusable.
    Poisoned,
}

/// The abstract state of a cell: its state word, with the stored value
/// attached once initialization has completed.
pub enum OnceView<T> {
    Incomplete,
    Running,
    Complete(T),
    Poisoned,
}

/// The fatal outcome of touching a cell whose initializer failed earlier.
#[derive(Clone, Copy, Debug, PartialEq, Eq, Structural)]
pub enum OnceError {
    /// A previous initializer aborted; the cell is permanently poisoned.
    Poisoned,
}

/// The outcome of a fallible initialization attempt.
#[derive(Debug)]
pub enum InitError<E> {
    /// This very attempt ran the initializer and the initializer failed;
    /// the cell is poisoned from now on.
    Failed(E),
    /// A previous initializer had already poisoned the cell; the
    /// initializer supplied to this attempt was not run.
    Poisoned,
}

/// A slot holding one `T`, initialized at most once.
pub struct Once<T> {
    state: OnceState,
    slot: Option<T>,
}

impl<T> View for Once<T> {
    type V = OnceView<T>;

    closed spec fn view(&self) -> OnceView<T> {
        match self.state {
            OnceState::Incomplete => OnceView::Incomplete,
            OnceState::Running => OnceView::Running,
            OnceState::Complete => OnceView::Complete(self.slot->0),
            OnceState::Poisoned => OnceView::Poisoned,
        }
    }
}

impl<T> Once<T> {
    /// The state word and the storage slot agree: the slot is filled
    /// exactly when the cell is complete.
    pub closed spec fn wf(&self) -> bool {
        (self.state == OnceState::Complete) <==> (self.slot is Some)
    }

    /// The stored value, meaningful once the cell is complete.
    pub open spec fn value(&self) -> T
        recommends
            self@ is Complete,
    {
        self@->Complete_0
    }

    /// Create an empty cell.
    pub fn new() -> (r: Self)
        ensures
            r.wf(),
            r@ is Incomplete,
    {
        Once { state: OnceState::Incomplete, slot: None }
    }

    /// Non-blocking state query: whether the cell has been initialized.
    pub fn is_completed(&self) -> (r: bool)
        ensures
            r == (self@ is Complete),
    {
        self.state == OnceState::Complete
    }

    /// Non-blocking read: the stored value if the cell is complete, and
    /// nothing otherwise — no spinning, for contexts that must never wait
    /// on a concurrent initializer.
    pub fn get(&self) -> (r: Option<&T>)
        requires
            self.wf(),
        ensures
            self@ is Complete ==> (r matches Some(v) && *v == self.value()),
            !(self@ is Complete) ==> r is None,
    {
        match self.state {
            OnceState::Complete => match &self.slot {
                Some(v) => Some(v),
                None => vstd::pervasive::unreached(),
            },
            _ => None,
        }
    }

    /// The current state word, read without blocking.
    pub(crate) fn snapshot(&self) -> (s: OnceState)
        ensures
            (s == OnceState::Incomplete) == (self@ is Incomplete),
            (s == OnceState::Running) == (self@ is Running),
            (s == OnceState::Complete) == (self@ is Complete),
            (s == OnceState::Poisoned) == (self@ is Poisoned),
    {
        self.state
    }

    /// Mark the cell permanently failed on behalf of an initializer that
    /// could not produce a value.
    pub(crate) fn mark_poisoned(&mut self)
        requires
            old(self).wf(),
            !(old(self)@ is Complete),
        ensures
            final(self).wf(),
            final(self)@ is Poisoned,
    {
        self.state = OnceState::Poisoned;
    }

    /// Run `f` exactly once across the cell's lifetime and hand every
    /// caller the one stored result.
    ///
    /// The winner of the `Incomplete` state runs `f`, stores the result and
    /// completes the cell; on a cell that is already complete, `f` is
    /// dropped unrun and the previously stored value is returned; on a
    /// poisoned cell the call fails fatally, again without running `f`.
    pub fn call_once<F: FnOnce() -> T>(&mut self, f: F) -> (r: Result<&T, OnceError>)
        requires
            old(self).wf(),
            !(old(self)@ is Running),
            old(self)@ is Incomplete ==> call_requires(f, ()),
        ensures
            final(self).wf(),
            !(final(self)@ is Incomplete),
            !(final(self)@ is Running),
            old(self)@ is Complete ==> (*final(self) == *old(self) && (r matches Ok(v)
                && *v == old(self).value())),
            old(self)@ is Incomplete ==> (r matches Ok(v) && final(self)@ == OnceView::Complete(*v)
                && call_ensures(f, (), *v)),
            old(self)@ is Poisoned ==> ((final(self)@ is Poisoned) && (r matches Err(e)
                && e == OnceError::Poisoned)),
    {
        match self.state {
            OnceState::Poisoned => Err(OnceError::Poisoned),
            OnceState::Complete => match &self.slot {
                Some(v) => Ok(v),
                None => vstd::pervasive::unreached(),
            },
            _ => {
                self.state = OnceState::Running;
                let value = f();
                self.slot = Some(value);
                self.state = OnceState::Complete;
                match &self.slot {
                    Some(v) => Ok(v),
                    None => vstd::pervasive::unreached(),
                }
            },
        }
    }

    /// Like [`Once::call_once`], for an initializer that can fail: the
    /// winner runs `f`, and if `f` reports an error the cell becomes
    /// permanently poisoned and the error is handed back to the winner's
    /// caller; every later attempt then fails with the poisoned outcome
    /// without running its initializer.
    pub fn try_call_once<E, F: FnOnce() -> Result<T, E>>(&mut self, f: F) -> (r: Result<
        &T,
        InitError<E>,
    >)
        requires
            old(self).wf(),
            !(old(self)@ is Running),
            old(self)@ is Incomplete ==> call_requires(f, ()),
        ensures
            final(self).wf(),
            !(final(self)@ is Incomplete),
            !(final(self)@ is Running),
            old(self)@ is Complete ==> (*final(self) == *old(self) && (r matches Ok(v)
                && *v == old(self).value())),
            old(self)@ is Incomplete ==> match r {
                Ok(v) => final(self)@ == OnceView::Complete(*v) && call_ensures(f, (), Ok(*v)),
                Err(e) => (e matches InitError::Failed(e0) && final(self)@ is Poisoned
                    && call_ensures(f, (), Err(e0))),
            },
            old(self)@ is Poisoned ==> ((final(self)@ is Poisoned) && (r matches Err(e)
                && e matches InitError::Poisoned)),
    {
        match self.state {
            OnceState::Poisoned => Err(InitError::Poisoned),
            OnceState::Complete => match &self.slot {
                Some(v) => Ok(v),
                None => vstd::pervasive::unreached(),
            },
            _ => {
                self.state = OnceState::Running;
                match f() {
                    Ok(value) => {
                        self.slot = Some(value);
                        self.state = OnceState::Complete;
                        match &self.slot {
                            Some(v) => Ok(v),
                            None => vstd::pervasive::unreached(),
                        }
                    },
                    Err(e) => {
                        self.state = OnceState::Poisoned;
                        Err(InitError::Failed(e))
                    },
                }
            },
        }
    }
}

} // verus!
