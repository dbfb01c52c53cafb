//! Busy-wait synchronization primitives for environments without an
//! operating-system blocking service: a spin-based mutual-exclusion
//! primitive, a single-initialization cell with poison-on-failure
//! semantics, a deferred singleton built on the cell, and a small
//! priority-tiered resource arbiter that shows the primitives in use.

pub mod relax;
pub mod mutex;
pub mod once;
pub mod lazy;
pub mod arbiter;
pub mod registry;
