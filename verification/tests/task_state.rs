//! Tests for the per-task scheduling state: the weight table, virtual-runtime
//! accounting, time-slice sizing and task creation defaults.

use cfs_core::config::{SCHED_DEFAULT_TIME_SLICE, SCHED_TARGET_LATENCY};
use cfs_core::task::{
    ProcessControlBlock, TaskControlBlock, TaskControlBlockInner, TaskStatus, TaskUserRes,
};
use cfs_core::workload::do_work;

fn res(ppn: usize) -> TaskUserRes {
    TaskUserRes { ustack_base: 0x8000_0000, trap_cx_ppn: ppn }
}

#[test]
fn weight_of_nice_zero_is_1024() {
    assert_eq!(TaskControlBlockInner::calc_load_weight(0), 1024);
}

#[test]
fn weight_table_boundaries() {
    assert_eq!(TaskControlBlockInner::calc_load_weight(-20), 88761);
    assert_eq!(TaskControlBlockInner::calc_load_weight(19), 15);
    assert_eq!(TaskControlBlockInner::calc_load_weight(-1), 1277);
    assert_eq!(TaskControlBlockInner::calc_load_weight(1), 820);
}

#[test]
fn weight_table_clamps_out_of_range_input() {
    assert_eq!(TaskControlBlockInner::calc_load_weight(-128), 88761);
    assert_eq!(TaskControlBlockInner::calc_load_weight(-21), 88761);
    assert_eq!(TaskControlBlockInner::calc_load_weight(20), 15);
    assert_eq!(TaskControlBlockInner::calc_load_weight(127), 15);
}

#[test]
fn weight_table_strictly_decreasing() {
    let mut previous = TaskControlBlockInner::calc_load_weight(-20);
    for nice in -19..=19i8 {
        let weight = TaskControlBlockInner::calc_load_weight(nice);
        assert!(
            weight < previous,
            "weight table not strictly decreasing at nice={}",
            nice
        );
        assert!(weight >= 1);
        previous = weight;
    }
}

#[test]
fn new_task_defaults() {
    let task = TaskControlBlock::new(3, res(42), 7, 11);
    assert_eq!(task.process, 3);
    assert_eq!(task.kstack, 7);
    assert_eq!(task.inner.res, Some(res(42)));
    assert_eq!(task.inner.trap_cx_ppn, 42);
    assert_eq!(task.inner.task_cx, 11);
    assert_eq!(task.inner.task_status, TaskStatus::Ready);
    assert_eq!(task.inner.exit_code, None);
    assert_eq!(task.inner.vruntime, 0);
    assert_eq!(task.inner.nice, 0);
    assert_eq!(task.inner.load_weight, 1024);
    assert_eq!(task.inner.time_slice, SCHED_DEFAULT_TIME_SLICE);
    assert_eq!(task.inner.last_scheduled, 0);
}

#[test]
fn task_accessors() {
    let mut task = TaskControlBlock::new(9, res(5), 1, 2);
    assert_eq!(task.inner.get_trap_cx(), 5);
    assert_eq!(task.inner.get_status(), TaskStatus::Ready);
    let owner = ProcessControlBlock { pid: 9, user_token: 0xdead };
    assert_eq!(task.get_user_token(&owner), 0xdead);
    let inner = task.inner_exclusive_access();
    inner.task_status = TaskStatus::Blocked;
    assert_eq!(task.inner.task_status, TaskStatus::Blocked);
}

#[test]
fn vruntime_advance_at_baseline_weight() {
    let mut task = TaskControlBlock::new(1, res(0), 0, 0);
    task.inner.update_vruntime(1000);
    assert_eq!(task.inner.vruntime, 1000);
    task.inner.update_vruntime(0);
    assert_eq!(task.inner.vruntime, 1000);
    task.inner.update_vruntime(123);
    assert_eq!(task.inner.vruntime, 1123);
}

#[test]
fn vruntime_advance_scales_with_weight() {
    let mut heavy = TaskControlBlock::new(1, res(0), 0, 0);
    heavy.inner.nice = -20;
    heavy.inner.load_weight = TaskControlBlockInner::calc_load_weight(-20);
    let mut light = TaskControlBlock::new(2, res(0), 0, 0);
    light.inner.nice = 19;
    light.inner.load_weight = TaskControlBlockInner::calc_load_weight(19);

    let delta = 1_000_000;
    heavy.inner.update_vruntime(delta);
    light.inner.update_vruntime(delta);

    // 1_000_000 * 1024 / 88761 and 1_000_000 * 1024 / 15, truncated.
    assert_eq!(heavy.inner.vruntime, 11536);
    assert_eq!(light.inner.vruntime, 68_266_666);

    // The nice=19 task aged about 88761 / 15 ~ 5917 times faster.
    let ratio = light.inner.vruntime / heavy.inner.vruntime;
    assert_eq!(ratio, 5917);
}

#[test]
fn vruntime_monotone_across_cycles() {
    let mut task = TaskControlBlock::new(1, res(0), 0, 0);
    let mut last = task.inner.vruntime;
    for delta in [0usize, 1, 999, 3000, 0, 42] {
        task.inner.update_vruntime(delta);
        assert!(task.inner.vruntime >= last);
        last = task.inner.vruntime;
    }
}

#[test]
fn time_slice_divides_the_period_equally() {
    let task = TaskControlBlock::new(1, res(0), 0, 0);
    // Empty system: the whole target latency.
    assert_eq!(task.inner.calc_time_slice(0), SCHED_TARGET_LATENCY);
    assert_eq!(task.inner.calc_time_slice(1), 24000);
    assert_eq!(task.inner.calc_time_slice(4), 6000);
    // At 8 tasks the equal share reaches the minimum granularity.
    assert_eq!(task.inner.calc_time_slice(8), 3000);
    // Beyond that the period stretches so the share stays at 3000.
    assert_eq!(task.inner.calc_time_slice(10), 3000);
    assert_eq!(task.inner.calc_time_slice(16), 3000);
}

#[test]
fn do_work_sums() {
    assert_eq!(do_work(0), 0);
    assert_eq!(do_work(1), 0);
    assert_eq!(do_work(5), 10);
    assert_eq!(do_work(5000), 12_497_500);
}
