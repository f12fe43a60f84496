//! A CPU-bound workload used to exercise the scheduler: a fixed amount of
//! arithmetic whose result is independent of how often the worker is
//! preempted or yields in between.

use vstd::prelude::*;

verus! {

/// The wrapping sum `0 + 1 + ... + (n - 1)` over `usize`, the value a worker
/// must arrive at regardless of scheduling.
pub open spec fn work_sum(n: int) -> usize
    recommends
        0 <= n <= usize::MAX,
    decreases n,
{
    if n <= 0 {
        0usize
    } else {
        work_sum(n - 1).wrapping_add((n - 1) as usize)
    }
}

/// Perform `iterations` steps of CPU-bound work. Yielding the processor
/// between steps is the caller's business (a syscall edge); the result is
/// the same however the work is interleaved.
pub fn do_work(iterations: usize) -> (sum: usize)
    ensures
        sum == work_sum(iterations as int),
{
    let mut sum: usize = 0;
    let mut i: usize = 0;
    while i < iterations
        invariant
            i <= iterations,
            sum == work_sum(i as int),
        decreases iterations - i,
    {
        sum = sum.wrapping_add(i);
        i = i + 1;
    }
    sum
}

} // verus!
