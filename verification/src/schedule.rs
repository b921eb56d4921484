//! Delays that a task hands to the scheduler.

use vstd::prelude::*;

verus! {

/// How long the scheduler is to wait before it runs a task.
#[derive(Clone, Copy, Debug, PartialEq, Eq, Structural)]
pub enum Delay {
    /// A number of microseconds.
    Micros(u64),
    /// A number of milliseconds.
    Millis(u64),
    /// A number of seconds.
    Secs(u64),
}

} // verus!
