//! The ready queue, the scheduler-wide aggregates, and the pid registry,
//! together with the process-wide entry points that drive them.

use vstd::prelude::*;

verus! {

use crate::task::{ProcessControlBlock, TaskControlBlock, TaskControlBlockInner, TaskStatus};
use std::collections::BTreeMap;

broadcast use vstd::std_specs::btree::group_btree_axioms, vstd::laws_cmp::group_laws_cmp;

/// One admitted task, keyed by the admission counter value it was admitted
/// under. The key exists solely to disambiguate equal-vruntime tasks —
/// first admitted, first selected — and is never reused.
#[derive(Copy, Clone, Debug, PartialEq, Eq, Structural)]
pub struct QueueEntry {
    pub key: usize,
    pub task: TaskControlBlock,
}

/// Sum of the load weights over a queue.
pub open spec fn weight_sum(entries: Seq<QueueEntry>) -> int
    decreases entries.len(),
{
    if entries.len() == 0 {
        0
    } else {
        weight_sum(entries.drop_last()) + entries.last().task.inner.load_weight as int
    }
}

/// The ready queue plus the scheduler-wide aggregates: the admission counter
/// and the running total of queued weight. The queue holds the entries in
/// admission order, which the well-formedness invariant pins as strictly
/// increasing keys.
pub struct TaskManager {
    ready_queue: Vec<QueueEntry>,
    task_count: usize,
    total_weight: usize,
}

impl TaskManager {
    /// The queued entries, in admission order.
    pub closed spec fn queue(self) -> Seq<QueueEntry> {
        self.ready_queue@
    }

    /// The admission counter: the key the next admitted task will get.
    pub closed spec fn counter(self) -> int {
        self.task_count as int
    }

    /// The running total of queued weight.
    pub closed spec fn weight(self) -> int {
        self.total_weight as int
    }

    /// Scheduler-wide invariant: admission keys are strictly increasing
    /// along the queue and below the counter; the weight aggregate is
    /// exactly the sum of the queued tasks' weights; and the queue never
    /// holds a task that is not `Ready` or that has already terminated.
    pub open spec fn wf(self) -> bool {
        &&& forall|i: int, j: int|
            0 <= i < j < self.queue().len() ==> #[trigger] self.queue()[i].key
                < #[trigger] self.queue()[j].key
        &&& forall|i: int| 0 <= i < self.queue().len() ==> #[trigger] self.queue()[i].key
            < self.counter()
        &&& self.weight() == weight_sum(self.queue())
        &&& forall|i: int|
            0 <= i < self.queue().len() ==> (#[trigger] self.queue()[i]).task.inner.task_status
                == TaskStatus::Ready && self.queue()[i].task.inner.exit_code is None
    }

    /// An empty ready queue with both aggregates at zero.
    pub fn new() -> (manager: Self)
        ensures
            manager.wf(),
            manager.queue() =~= Seq::<QueueEntry>::empty(),
            manager.counter() == 0,
            manager.weight() == 0,
    {
        TaskManager { ready_queue: Vec::new(), task_count: 0, total_weight: 0 }
    }

    /// Admit a task: account its weight into the running total and append it
    /// under a fresh, strictly increasing admission key. Only a `Ready`,
    /// unterminated task may be admitted, and the caller is responsible for
    /// not admitting a task that is already present. Infallible; no result.
    pub fn add(&mut self, task: TaskControlBlock)
        requires
            old(self).wf(),
            old(self).weight() + task.inner.load_weight <= usize::MAX,
            old(self).counter() < usize::MAX,
            task.inner.task_status == TaskStatus::Ready,
            task.inner.exit_code is None,
        ensures
            final(self).wf(),
            final(self).queue() =~= old(self).queue().push(
                (QueueEntry { key: old(self).counter() as usize, task: task }),
            ),
            final(self).counter() == old(self).counter() + 1,
            final(self).weight() == old(self).weight() + task.inner.load_weight,
    {
        let weight = task.inner.load_weight;
        self.total_weight = self.total_weight + weight;
        let key = self.task_count;
        self.ready_queue.push(QueueEntry { key, task });
        self.task_count = self.task_count + 1;
        proof {
            let q0 = old(self).queue();
            let q1 = self.queue();
            assert(q1.drop_last() =~= q0);
            assert forall|i: int, j: int| 0 <= i < j < q1.len() implies q1[i].key < q1[j].key by {
                if j < q0.len() {
                    assert(old(self).wf());
                }
            }
        }
    }

    /// Select and remove the task with minimal virtual runtime; ties go to
    /// the earliest-admitted entry. The removed weight leaves the running
    /// total (saturating, so an accounting bug can never underflow it).
    /// An empty queue yields `None` and changes nothing: the normal
    /// nothing-to-run condition, not an error.
    pub fn fetch(&mut self) -> (fetched: Option<TaskControlBlock>)
        requires
            old(self).wf(),
        ensures
            final(self).wf(),
            final(self).counter() == old(self).counter(),
            old(self).queue().len() == 0 ==> fetched is None && *final(self) == *old(self),
            old(self).queue().len() > 0 ==> exists|i: int|
                {
                    &&& #[trigger] is_min_choice(old(self).queue(), i)
                    &&& fetched == Some(old(self).queue()[i].task)
                    &&& final(self).queue() =~= old(self).queue().remove(i)
                    &&& final(self).weight() == old(self).weight() - old(
                        self,
                    ).queue()[i].task.inner.load_weight
                },
    {
        if self.ready_queue.len() == 0 {
            return None;
        }
        let ghost q0 = self.queue();
        let mut best: usize = 0;
        let mut idx: usize = 1;
        while idx < self.ready_queue.len()
            invariant
                old(self).wf(),
                *self == *old(self),
                q0 == self.queue(),
                q0.len() > 0,
                best < idx <= q0.len(),
                forall|k: int|
                    0 <= k < idx ==> q0[best as int].task.inner.vruntime
                        <= #[trigger] q0[k].task.inner.vruntime,
                forall|k: int|
                    0 <= k < best ==> #[trigger] q0[k].task.inner.vruntime
                        > q0[best as int].task.inner.vruntime,
            decreases q0.len() - idx,
        {
            if self.ready_queue[idx].task.inner.vruntime
                < self.ready_queue[best].task.inner.vruntime {
                best = idx;
            }
            idx = idx + 1;
        }
        proof {
            assert(is_min_choice(q0, best as int));
            lemma_weight_sum_remove(q0, best as int);
            lemma_weight_sum_nonneg(q0.remove(best as int));
        }
        let entry = self.ready_queue.remove(best);
        let weight = entry.task.inner.load_weight;
        self.total_weight = self.total_weight.saturating_sub(weight);
        proof {
            let q1 = self.queue();
            q0.remove_ensures(best as int);
            assert forall|i: int, j: int| 0 <= i < j < q1.len() implies q1[i].key < q1[j].key by {
                assert(old(self).wf());
            }
            assert forall|i: int| 0 <= i < q1.len() implies q1[i].key < self.counter() by {
                assert(old(self).wf());
            }
        }
        Some(entry.task)
    }

    /// Number of tasks currently ready.
    pub fn get_nr_running(&self) -> (nr_running: usize)
        ensures
            nr_running == self.queue().len(),
    {
        self.ready_queue.len()
    }

    /// The running total of queued weight.
    pub fn get_total_weight(&self) -> (total: usize)
        ensures
            total == self.weight(),
    {
        self.total_weight
    }

    /// The minimal virtual runtime among the queued tasks, or 0 when none is
    /// queued; the seed for a newly created task's initial virtual runtime.
    pub fn get_min_vruntime(&self) -> (min_vruntime: usize)
        ensures
            self.queue().len() == 0 ==> min_vruntime == 0,
            self.queue().len() > 0 ==> {
                &&& exists|i: int|
                    0 <= i < self.queue().len() && #[trigger] self.queue()[i].task.inner.vruntime
                        == min_vruntime
                &&& forall|i: int|
                    0 <= i < self.queue().len() ==> min_vruntime
                        <= #[trigger] self.queue()[i].task.inner.vruntime
            },
    {
        if self.ready_queue.len() == 0 {
            return 0;
        }
        let mut min_vruntime: usize = self.ready_queue[0].task.inner.vruntime;
        let mut idx: usize = 1;
        while idx < self.ready_queue.len()
            invariant
                1 <= idx <= self.queue().len(),
                exists|i: int|
                    0 <= i < self.queue().len() && #[trigger] self.queue()[i].task.inner.vruntime
                        == min_vruntime,
                forall|k: int|
                    0 <= k < idx ==> min_vruntime <= #[trigger] self.queue()[k].task.inner.vruntime,
            decreases self.queue().len() - idx,
        {
            let v = self.ready_queue[idx].task.inner.vruntime;
            if v < min_vruntime {
                min_vruntime = v;
            }
            idx = idx + 1;
        }
        min_vruntime
    }
}

/// Whether index `i` is the entry `fetch` must select: minimal virtual
/// runtime over the whole queue, and strictly below every entry admitted
/// before it — so, among equal minima, the earliest-admitted one.
pub open spec fn is_min_choice(entries: Seq<QueueEntry>, i: int) -> bool {
    &&& 0 <= i < entries.len()
    &&& forall|k: int|
        0 <= k < entries.len() ==> entries[i].task.inner.vruntime
            <= #[trigger] entries[k].task.inner.vruntime
    &&& forall|k: int|
        0 <= k < i ==> #[trigger] entries[k].task.inner.vruntime
            > entries[i].task.inner.vruntime
}

/// Law (selection correctness): the entry `fetch` selects is uniquely
/// determined by the queue — there is exactly one index holding the minimal
/// virtual runtime while strictly undercutting everything admitted earlier.
pub proof fn lemma_min_choice_unique(entries: Seq<QueueEntry>, i: int, j: int)
    requires
        is_min_choice(entries, i),
        is_min_choice(entries, j),
    ensures
        i == j,
{
    if i < j {
        assert(entries[i].task.inner.vruntime > entries[j].task.inner.vruntime);
        assert(entries[j].task.inner.vruntime >= entries[i].task.inner.vruntime);
    } else if j < i {
        assert(entries[j].task.inner.vruntime > entries[i].task.inner.vruntime);
        assert(entries[i].task.inner.vruntime >= entries[j].task.inner.vruntime);
    }
}

/// Law (tie-breaking): under the manager invariant, the selected entry has
/// the lowest admission key among all entries of minimal virtual runtime —
/// the earliest-admitted task wins a tie.
pub proof fn lemma_min_choice_earliest_admission(manager: TaskManager, i: int, k: int)
    requires
        manager.wf(),
        is_min_choice(manager.queue(), i),
        0 <= k < manager.queue().len(),
        manager.queue()[k].task.inner.vruntime == manager.queue()[i].task.inner.vruntime,
    ensures
        manager.queue()[i].key <= manager.queue()[k].key,
{
    if k < i {
        assert(manager.queue()[k].task.inner.vruntime > manager.queue()[i].task.inner.vruntime);
    }
}

/// Removing one entry removes exactly its weight from the sum.
proof fn lemma_weight_sum_remove(entries: Seq<QueueEntry>, i: int)
    requires
        0 <= i < entries.len(),
    ensures
        weight_sum(entries.remove(i)) == weight_sum(entries)
            - entries[i].task.inner.load_weight as int,
    decreases entries.len(),
{
    if i == entries.len() - 1 {
        assert(entries.remove(i) =~= entries.drop_last());
    } else {
        let shorter = entries.drop_last();
        assert(entries.remove(i).drop_last() =~= shorter.remove(i));
        assert(entries.remove(i).last() == entries.last());
        lemma_weight_sum_remove(shorter, i);
    }
}

/// A sum of (unsigned) weights is never negative.
proof fn lemma_weight_sum_nonneg(entries: Seq<QueueEntry>)
    ensures
        weight_sum(entries) >= 0,
    decreases entries.len(),
{
    if entries.len() > 0 {
        lemma_weight_sum_nonneg(entries.drop_last());
    }
}

/// The task as it re-enters scheduling on wakeup: status back to `Ready`,
/// everything else untouched (in particular no vruntime adjustment — that
/// happens only at the next run→yield boundary).
pub open spec fn woken(task: TaskControlBlock) -> TaskControlBlock {
    TaskControlBlock {
        inner: TaskControlBlockInner { task_status: TaskStatus::Ready, ..task.inner },
        ..task
    }
}

/// Scheduler-wide state: the ready queue with its aggregates, and the pid
/// registry. The kernel holds exactly one instance for its lifetime and
/// passes it to every entry point; the exclusive-access discipline the
/// kernel puts around it is carried here by `&mut`.
pub struct Scheduler {
    task_manager: TaskManager,
    pid2pcb: BTreeMap<usize, ProcessControlBlock>,
}

impl Scheduler {
    /// The ready queue and its aggregates.
    pub closed spec fn manager(self) -> TaskManager {
        self.task_manager
    }

    /// The registry as a map from pid to process control block.
    pub closed spec fn pid_map(self) -> Map<usize, ProcessControlBlock> {
        self.pid2pcb@
    }

    pub open spec fn wf(self) -> bool {
        self.manager().wf()
    }

    /// Fresh scheduler state: empty ready queue, zero aggregates, empty
    /// registry.
    pub fn new() -> (sched: Self)
        ensures
            sched.wf(),
            sched.manager().queue() =~= Seq::<QueueEntry>::empty(),
            sched.manager().counter() == 0,
            sched.manager().weight() == 0,
            sched.pid_map() == Map::<usize, ProcessControlBlock>::empty(),
    {
        Scheduler { task_manager: TaskManager::new(), pid2pcb: BTreeMap::new() }
    }
}

/// Admit a `Ready`, unterminated task into the ready queue.
pub fn add_task(sched: &mut Scheduler, task: TaskControlBlock)
    requires
        old(sched).wf(),
        old(sched).manager().weight() + task.inner.load_weight <= usize::MAX,
        old(sched).manager().counter() < usize::MAX,
        task.inner.task_status == TaskStatus::Ready,
        task.inner.exit_code is None,
    ensures
        final(sched).wf(),
        final(sched).manager().queue() =~= old(sched).manager().queue().push(
            (QueueEntry { key: old(sched).manager().counter() as usize, task: task }),
        ),
        final(sched).manager().counter() == old(sched).manager().counter() + 1,
        final(sched).manager().weight() == old(sched).manager().weight()
            + task.inner.load_weight,
        final(sched).pid_map() == old(sched).pid_map(),
{
    sched.task_manager.add(task);
}

/// Wake a blocked task: set its status back to `Ready` and re-admit it. Its
/// virtual runtime is left alone — it is adjusted only at the next
/// run→yield boundary. A terminated task must never re-enter the queue.
pub fn wakeup_task(sched: &mut Scheduler, task: TaskControlBlock)
    requires
        old(sched).wf(),
        old(sched).manager().weight() + task.inner.load_weight <= usize::MAX,
        old(sched).manager().counter() < usize::MAX,
        task.inner.exit_code is None,
    ensures
        final(sched).wf(),
        final(sched).manager().queue() =~= old(sched).manager().queue().push(
            (QueueEntry { key: old(sched).manager().counter() as usize, task: woken(task) }),
        ),
        final(sched).manager().counter() == old(sched).manager().counter() + 1,
        final(sched).manager().weight() == old(sched).manager().weight()
            + task.inner.load_weight,
        final(sched).pid_map() == old(sched).pid_map(),
{
    let mut task = task;
    task.inner.task_status = TaskStatus::Ready;
    sched.task_manager.add(task);
}

/// Take the next task to run: the queued task with minimal virtual runtime,
/// ties to the earliest admitted. `None` when nothing is ready.
pub fn fetch_task(sched: &mut Scheduler) -> (fetched: Option<TaskControlBlock>)
    requires
        old(sched).wf(),
    ensures
        final(sched).wf(),
        final(sched).manager().counter() == old(sched).manager().counter(),
        final(sched).pid_map() == old(sched).pid_map(),
        old(sched).manager().queue().len() == 0 ==> fetched is None && final(sched).manager()
            == old(sched).manager(),
        old(sched).manager().queue().len() > 0 ==> exists|i: int|
            {
                &&& #[trigger] is_min_choice(old(sched).manager().queue(), i)
                &&& fetched == Some(old(sched).manager().queue()[i].task)
                &&& final(sched).manager().queue() =~= old(sched).manager().queue().remove(i)
                &&& final(sched).manager().weight() == old(sched).manager().weight() - old(
                    sched,
                ).manager().queue()[i].task.inner.load_weight
            },
{
    sched.task_manager.fetch()
}

/// Number of tasks currently ready.
pub fn get_nr_running(sched: &Scheduler) -> (nr_running: usize)
    ensures
        nr_running == sched.manager().queue().len(),
{
    sched.task_manager.get_nr_running()
}

/// The minimal virtual runtime among the ready tasks, or 0 when none is
/// ready.
pub fn get_min_vruntime(sched: &Scheduler) -> (min_vruntime: usize)
    ensures
        sched.manager().queue().len() == 0 ==> min_vruntime == 0,
        sched.manager().queue().len() > 0 ==> {
            &&& exists|i: int|
                0 <= i < sched.manager().queue().len()
                    && #[trigger] sched.manager().queue()[i].task.inner.vruntime == min_vruntime
            &&& forall|i: int|
                0 <= i < sched.manager().queue().len() ==> min_vruntime
                    <= #[trigger] sched.manager().queue()[i].task.inner.vruntime
        },
{
    sched.task_manager.get_min_vruntime()
}

/// Look up the process registered under `pid`. Absence is normal control
/// flow here, not an error.
pub fn pid2process(sched: &Scheduler, pid: usize) -> (process: Option<ProcessControlBlock>)
    ensures
        sched.pid_map().contains_key(pid) ==> process == Some(sched.pid_map()[pid]),
        !sched.pid_map().contains_key(pid) ==> process is None,
{
    match sched.pid2pcb.get(&pid) {
        Some(p) => Some(*p),
        None => None,
    }
}

/// Register a freshly created process under its pid.
pub fn insert_into_pid2process(sched: &mut Scheduler, pid: usize, process: ProcessControlBlock)
    ensures
        final(sched).pid_map() == old(sched).pid_map().insert(pid, process),
        final(sched).manager() == old(sched).manager(),
{
    sched.pid2pcb.insert(pid, process);
}

/// Law (fatal path): attempting to remove a pid that is not registered
/// reports the fault — `None` — and leaves the registry exactly as it was;
/// it never silently succeeds. The kernel glue treats that report as an
/// unrecoverable fault and halts.
pub fn try_remove_from_pid2process(sched: &mut Scheduler, pid: usize) -> (removed: Option<
    ProcessControlBlock,
>)
    ensures
        final(sched).manager() == old(sched).manager(),
        old(sched).pid_map().contains_key(pid) ==> removed == Some(old(sched).pid_map()[pid])
            && final(sched).pid_map() == old(sched).pid_map().remove(pid),
        !old(sched).pid_map().contains_key(pid) ==> removed is None && final(sched).pid_map()
            == old(sched).pid_map(),
{
    let removed = sched.pid2pcb.remove(&pid);
    proof {
        if !old(sched).pid_map().contains_key(pid) {
            assert(sched.pid2pcb@ =~= old(sched).pid2pcb@);
        }
    }
    removed
}

/// Unregister a reaped process. The pid must be registered: tearing down a
/// process that the registry does not know is a kernel programming fault,
/// which [`try_remove_from_pid2process`] reports for the fatal path.
pub fn remove_from_pid2process(sched: &mut Scheduler, pid: usize)
    requires
        old(sched).pid_map().contains_key(pid),
    ensures
        final(sched).pid_map() == old(sched).pid_map().remove(pid),
        final(sched).manager() == old(sched).manager(),
{
    try_remove_from_pid2process(sched, pid);
}

} // verus!
