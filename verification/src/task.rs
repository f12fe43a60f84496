//! Per-task scheduling state: the task control block, the nice-to-weight
//! table, virtual-runtime accounting and time-slice sizing.
//!
//! The collaborators that surround a task in the kernel — the address space,
//! the kernel stack, the trap and switch contexts, the user-space resource
//! allocation — are consumed through opaque handles carried as plain values;
//! the scheduler never interprets them.

use vstd::prelude::*;

verus! {

use crate::config::{
    SCHED_DEFAULT_TIME_SLICE, SCHED_MIN_GRANULARITY, SCHED_NICE_0_LOAD, SCHED_TARGET_LATENCY,
};

/// Scheduling status of a task. A terminated task is not a fourth status:
/// termination is recorded by `exit_code.is_some()`.
#[derive(Copy, Clone, Debug, PartialEq, Eq, Structural)]
pub enum TaskStatus {
    Ready,
    Running,
    Blocked,
}

/// Handle to a task's user-space resource allocation (user stack region and
/// trap-context page), as produced by the user resource allocator. The
/// scheduler only stores it and hands it back at teardown.
#[derive(Copy, Clone, Debug, PartialEq, Eq, Structural)]
pub struct TaskUserRes {
    /// Base address of the task's user stack region.
    pub ustack_base: usize,
    /// Physical page number of the task's trap context.
    pub trap_cx_ppn: usize,
}

/// The slice of a process control block that the scheduler consults: the
/// process identity and the user-space page-table token of its address space.
#[derive(Copy, Clone, Debug, PartialEq, Eq, Structural)]
pub struct ProcessControlBlock {
    pub pid: usize,
    /// Page-table token of the process's address space.
    pub user_token: usize,
}

/// Clamp a nice value into the valid range `[-20, 19]`. Out-of-range input
/// saturates silently; it is never an error.
pub open spec fn clamped_nice(nice: int) -> int {
    if nice < -20 {
        -20
    } else if nice > 19 {
        19
    } else {
        nice
    }
}

/// The fixed nice-to-weight table: a geometric falloff of about 10% per unit
/// of nice, anchored at `weight_of(0) == 1024`. The table is the sole source
/// of weight; it is never recomputed from a formula, so that scheduling stays
/// bit-reproducible.
pub open spec fn weight_of(nice: int) -> int {
    let n = clamped_nice(nice);
    if n == -20 {
        88761
    } else if n == -19 {
        71755
    } else if n == -18 {
        56483
    } else if n == -17 {
        46273
    } else if n == -16 {
        36291
    } else if n == -15 {
        29154
    } else if n == -14 {
        23254
    } else if n == -13 {
        18705
    } else if n == -12 {
        14949
    } else if n == -11 {
        11916
    } else if n == -10 {
        9548
    } else if n == -9 {
        7620
    } else if n == -8 {
        6100
    } else if n == -7 {
        4904
    } else if n == -6 {
        3906
    } else if n == -5 {
        3121
    } else if n == -4 {
        2501
    } else if n == -3 {
        1991
    } else if n == -2 {
        1586
    } else if n == -1 {
        1277
    } else if n == 0 {
        1024
    } else if n == 1 {
        820
    } else if n == 2 {
        655
    } else if n == 3 {
        526
    } else if n == 4 {
        423
    } else if n == 5 {
        335
    } else if n == 6 {
        272
    } else if n == 7 {
        215
    } else if n == 8 {
        172
    } else if n == 9 {
        137
    } else if n == 10 {
        110
    } else if n == 11 {
        87
    } else if n == 12 {
        70
    } else if n == 13 {
        56
    } else if n == 14 {
        45
    } else if n == 15 {
        36
    } else if n == 16 {
        29
    } else if n == 17 {
        23
    } else if n == 18 {
        18
    } else {
        15
    }
}

/// Every weight the table yields is positive and at most the weight of
/// `nice == -20`; in particular a stored weight is never zero.
pub proof fn lemma_weight_of_bounds(nice: int)
    ensures
        1 <= weight_of(nice) <= 88761,
{
}

/// Law: the weight table is strictly decreasing over the valid nice range —
/// a lower nice value always means a strictly larger weight.
pub proof fn lemma_weight_of_strictly_decreasing(n1: int, n2: int)
    requires
        -20 <= n1 < n2 <= 19,
    ensures
        weight_of(n2) < weight_of(n1),
{
}

/// Law: the table saturates outside `[-20, 19]` — every input is served as
/// its nearest in-range neighbour, so no input errors.
pub proof fn lemma_weight_of_clamps(nice: int)
    ensures
        weight_of(nice) == weight_of(clamped_nice(nice)),
        nice <= -20 ==> weight_of(nice) == weight_of(-20),
        nice >= 19 ==> weight_of(nice) == weight_of(19),
{
}

/// By how much a task's virtual runtime advances when it has run for
/// `delta_time` microseconds of wall-clock time: the elapsed time normalized
/// to the nice-0 baseline. Division truncates; the `max(weight, 1)` guard is
/// defensive only, since the table never yields zero.
pub open spec fn vruntime_delta(load_weight: int, delta_time: int) -> int {
    (delta_time * SCHED_NICE_0_LOAD) / (if load_weight >= 1 {
        load_weight
    } else {
        1
    })
}

/// A non-negative elapsed time never moves virtual runtime backwards.
pub proof fn lemma_vruntime_delta_nonneg(load_weight: int, delta_time: int)
    requires
        delta_time >= 0,
    ensures
        vruntime_delta(load_weight, delta_time) >= 0,
{
    let d = if load_weight >= 1 {
        load_weight
    } else {
        1
    };
    assert((delta_time * SCHED_NICE_0_LOAD) / d >= 0) by (nonlinear_arith)
        requires
            delta_time >= 0,
            d >= 1,
    ;
}

/// The advisory quantum for one task when `nr_running` tasks are ready: the
/// scheduling period — the target latency, stretched once the minimum
/// granularity times the population exceeds it — divided equally among the
/// ready tasks.
pub open spec fn time_slice_of(nr_running: int) -> int {
    let period = if nr_running > 0 {
        if SCHED_MIN_GRANULARITY * nr_running > SCHED_TARGET_LATENCY {
            SCHED_MIN_GRANULARITY * nr_running
        } else {
            SCHED_TARGET_LATENCY as int
        }
    } else {
        SCHED_TARGET_LATENCY as int
    };
    period / (if nr_running >= 1 {
        nr_running
    } else {
        1
    })
}

/// Mutable scheduling and execution state of one task. In the kernel this
/// sits behind an exclusive-access cell; here exclusivity is carried by
/// Rust's `&mut`, which likewise admits one owner at a time.
#[derive(Copy, Clone, Debug, PartialEq, Eq, Structural)]
pub struct TaskControlBlockInner {
    /// The task's user-space resource allocation; released exactly once, at
    /// teardown, by taking it out of the option.
    pub res: Option<TaskUserRes>,
    /// Physical page number of the trap context; consumed by the trap
    /// collaborator, never interpreted here.
    pub trap_cx_ppn: usize,
    /// Opaque handle to the saved switch context; consumed by the
    /// context-switch collaborator, never interpreted here.
    pub task_cx: usize,
    pub task_status: TaskStatus,
    /// Set exactly once when the task exits; a task with an exit code is
    /// terminated and must never re-enter the ready queue.
    pub exit_code: Option<i32>,
    /// Accumulated virtual runtime in microseconds of weighted execution;
    /// non-decreasing while the task is schedulable.
    pub vruntime: usize,
    /// Priority hint in `[-20, 19]`, fixed at creation.
    pub nice: i8,
    /// Weight derived from `nice` through the fixed table; never zero.
    pub load_weight: usize,
    /// Advisory quantum in microseconds; informs the preemption timer but is
    /// not enforced at this layer.
    pub time_slice: usize,
    /// Timestamp (microseconds) of the last transition into `Running`; the
    /// elapsed runtime folded into `vruntime` is measured from it.
    pub last_scheduled: usize,
}

impl TaskControlBlockInner {
    /// The scheduling state is well formed when the nice value is in range
    /// and the stored weight is exactly the table entry for it.
    pub open spec fn wf(self) -> bool {
        &&& -20 <= self.nice <= 19
        &&& self.load_weight == weight_of(self.nice as int)
    }

    /// Hand out the trap-context handle for the trap collaborator.
    pub fn get_trap_cx(&self) -> (ppn: usize)
        ensures
            ppn == self.trap_cx_ppn,
    {
        self.trap_cx_ppn
    }

    /// Current scheduling status.
    pub fn get_status(&self) -> (status: TaskStatus)
        ensures
            status == self.task_status,
    {
        self.task_status
    }

    /// Look up the load weight for a nice value in the fixed table, clamping
    /// out-of-range input to the nearest boundary.
    pub fn calc_load_weight(nice: i8) -> (weight: usize)
        ensures
            weight == weight_of(nice as int),
            1 <= weight <= 88761,
    {
        let n: i8 = if nice < -20 {
            -20
        } else if nice > 19 {
            19
        } else {
            nice
        };
        if n == -20 {
            88761
        } else if n == -19 {
            71755
        } else if n == -18 {
            56483
        } else if n == -17 {
            46273
        } else if n == -16 {
            36291
        } else if n == -15 {
            29154
        } else if n == -14 {
            23254
        } else if n == -13 {
            18705
        } else if n == -12 {
            14949
        } else if n == -11 {
            11916
        } else if n == -10 {
            9548
        } else if n == -9 {
            7620
        } else if n == -8 {
            6100
        } else if n == -7 {
            4904
        } else if n == -6 {
            3906
        } else if n == -5 {
            3121
        } else if n == -4 {
            2501
        } else if n == -3 {
            1991
        } else if n == -2 {
            1586
        } else if n == -1 {
            1277
        } else if n == 0 {
            1024
        } else if n == 1 {
            820
        } else if n == 2 {
            655
        } else if n == 3 {
            526
        } else if n == 4 {
            423
        } else if n == 5 {
            335
        } else if n == 6 {
            272
        } else if n == 7 {
            215
        } else if n == 8 {
            172
        } else if n == 9 {
            137
        } else if n == 10 {
            110
        } else if n == 11 {
            87
        } else if n == 12 {
            70
        } else if n == 13 {
            56
        } else if n == 14 {
            45
        } else if n == 15 {
            36
        } else if n == 16 {
            29
        } else if n == 17 {
            23
        } else if n == 18 {
            18
        } else {
            15
        }
    }

    /// Fold `delta_time` microseconds of wall-clock runtime into the task's
    /// virtual runtime: `vruntime += delta_time * 1024 / max(load_weight, 1)`.
    /// A heavier (lower-nice) task accumulates virtual time more slowly and
    /// therefore stays eligible longer.
    pub fn update_vruntime(&mut self, delta_time: usize)
        requires
            delta_time * SCHED_NICE_0_LOAD <= usize::MAX,
            old(self).vruntime + vruntime_delta(
                old(self).load_weight as int,
                delta_time as int,
            ) <= usize::MAX,
        ensures
            final(self).vruntime == old(self).vruntime + vruntime_delta(
                old(self).load_weight as int,
                delta_time as int,
            ),
            final(self).vruntime >= old(self).vruntime,
            *final(self) == (TaskControlBlockInner { vruntime: final(self).vruntime, ..*old(self) }),
    {
        proof {
            lemma_vruntime_delta_nonneg(self.load_weight as int, delta_time as int);
        }
        let divisor: usize = if self.load_weight >= 1 {
            self.load_weight
        } else {
            1
        };
        let increment: usize = (delta_time * SCHED_NICE_0_LOAD) / divisor;
        self.vruntime = self.vruntime + increment;
    }

    /// Size the advisory quantum from the current ready-queue population:
    /// the scheduling period divided equally among the ready tasks.
    pub fn calc_time_slice(&self, nr_running: usize) -> (slice: usize)
        requires
            SCHED_MIN_GRANULARITY * nr_running <= usize::MAX,
        ensures
            slice == time_slice_of(nr_running as int),
    {
        let period: usize = if nr_running > 0 {
            let stretched: usize = SCHED_MIN_GRANULARITY * nr_running;
            if stretched > SCHED_TARGET_LATENCY {
                stretched
            } else {
                SCHED_TARGET_LATENCY
            }
        } else {
            SCHED_TARGET_LATENCY
        };
        let divisor: usize = if nr_running >= 1 {
            nr_running
        } else {
            1
        };
        period / divisor
    }
}

/// One schedulable unit of execution. The owning process is referenced by
/// pid — a non-owning back-reference resolved through the pid registry at
/// each use — so that a process can own its tasks without a cycle.
#[derive(Copy, Clone, Debug, PartialEq, Eq, Structural)]
pub struct TaskControlBlock {
    /// Pid of the owning process (non-owning back-reference).
    pub process: usize,
    /// Handle to the task's kernel execution stack, from the kernel-stack
    /// allocator; owned for the task's lifetime.
    pub kstack: usize,
    /// The mutable scheduling state, exclusively accessed.
    pub inner: TaskControlBlockInner,
}

impl TaskControlBlock {
    pub open spec fn wf(self) -> bool {
        self.inner.wf()
    }

    /// Create a task for the given process: default nice of 0 (weight 1024),
    /// zero virtual runtime, status `Ready`, no exit code. The kernel-stack
    /// and user-resource handles come from their allocators; the trap-context
    /// page is the one the user resource carries.
    ///
    /// A fresh task deliberately starts at virtual runtime zero; a creator
    /// that wants to stop it leapfrogging an established population can seed
    /// it from [`crate::manager::TaskManager::get_min_vruntime`] instead.
    pub fn new(process: usize, res: TaskUserRes, kstack: usize, task_cx: usize) -> (task: Self)
        ensures
            task.wf(),
            task.process == process,
            task.kstack == kstack,
            task.inner.res == Some(res),
            task.inner.trap_cx_ppn == res.trap_cx_ppn,
            task.inner.task_cx == task_cx,
            task.inner.task_status == TaskStatus::Ready,
            task.inner.exit_code is None,
            task.inner.vruntime == 0,
            task.inner.nice == 0,
            task.inner.load_weight == weight_of(0),
            task.inner.time_slice == SCHED_DEFAULT_TIME_SLICE,
            task.inner.last_scheduled == 0,
    {
        let nice: i8 = 0;
        let load_weight = TaskControlBlockInner::calc_load_weight(nice);
        TaskControlBlock {
            process,
            kstack,
            inner: TaskControlBlockInner {
                res: Some(res),
                trap_cx_ppn: res.trap_cx_ppn,
                task_cx,
                task_status: TaskStatus::Ready,
                exit_code: None,
                vruntime: 0,
                nice,
                load_weight,
                time_slice: SCHED_DEFAULT_TIME_SLICE,
                last_scheduled: 0,
            },
        }
    }

    /// Exclusive access to the mutable scheduling state. In the kernel this
    /// takes the task's exclusive-access cell; here the borrow itself grants
    /// one owner at a time.
    pub fn inner_exclusive_access(&mut self) -> (inner: &mut TaskControlBlockInner)
        ensures
            *inner == old(self).inner,
            *final(self) == (TaskControlBlock { inner: *final(inner), ..*old(self) }),
    {
        &mut self.inner
    }

    /// The user-space page-table token of the owning process. The caller
    /// resolves the back-reference through the pid registry first; a live
    /// task whose owner has vanished is a kernel fault, checked there.
    pub fn get_user_token(&self, process: &ProcessControlBlock) -> (token: usize)
        requires
            process.pid == self.process,
        ensures
            token == process.user_token,
    {
        process.user_token
    }
}

/// The virtual runtime a task has accumulated after running a whole sequence
/// of intervals, each folded in by `update_vruntime`.
pub open spec fn vruntime_after(v0: int, load_weight: int, deltas: Seq<int>) -> int
    decreases deltas.len(),
{
    if deltas.len() == 0 {
        v0
    } else {
        vruntime_after(
            v0 + vruntime_delta(load_weight, deltas[0]),
            load_weight,
            deltas.drop_first(),
        )
    }
}

/// Law: virtual runtime is monotone — across any sequence of run→yield or
/// run→block cycles with non-negative elapsed times, a task's vruntime never
/// decreases below where it started.
pub proof fn lemma_vruntime_monotone(v0: int, load_weight: int, deltas: Seq<int>)
    requires
        forall|i: int| 0 <= i < deltas.len() ==> deltas[i] >= 0,
    ensures
        vruntime_after(v0, load_weight, deltas) >= v0,
    decreases deltas.len(),
{
    if deltas.len() > 0 {
        lemma_vruntime_delta_nonneg(load_weight, deltas[0]);
        let v1 = v0 + vruntime_delta(load_weight, deltas[0]);
        assert(forall|i: int|
            0 <= i < deltas.drop_first().len() ==> #[trigger] deltas.drop_first()[i] >= 0);
        lemma_vruntime_monotone(v1, load_weight, deltas.drop_first());
    }
}

} // verus!
