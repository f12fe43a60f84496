//! Scheduler-wide tuning constants.

use vstd::prelude::*;

verus! {

/// Smallest quantum a ready task is offered, in microseconds.
pub const SCHED_MIN_GRANULARITY: usize = 3000;

/// Target length of one full scheduling period, in microseconds.
pub const SCHED_TARGET_LATENCY: usize = 24000;

/// Load weight of a task with `nice == 0`; the baseline that virtual-runtime
/// accounting normalizes against.
pub const SCHED_NICE_0_LOAD: usize = 1024;

/// Default quantum given to a freshly created task, in microseconds.
pub const SCHED_DEFAULT_TIME_SLICE: usize = 6000;

} // verus!
