//! Backoff policies: how a spin loop waits between failed attempts.

use vstd::prelude::*;

verus! {

/// A strategy for waiting between failed attempts inside a spin loop.
///
/// A policy has no observable effect other than consuming time; it must be
/// safe to invoke from any execution context, including ones where no
/// scheduler is present.
pub trait RelaxStrategy {
    /// Wait a little before the next attempt.
    fn relax();
}

/// Busy-wait on the spot, telling the processor that it sits in a spin loop.
pub struct Spin;

/// Relies on core::hint::spin_loop: a processor hint with no observable
/// effect on program state.
#[verifier::external_body]
fn cpu_relax() {
    core::hint::spin_loop();
}

impl RelaxStrategy for Spin {
    fn relax() {
        cpu_relax();
    }
}

/// Retry immediately, without any pause at all.
pub struct PureRetry;

impl RelaxStrategy for PureRetry {
    fn relax() {
    }
}

} // verus!
