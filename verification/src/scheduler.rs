//! The cooperative scheduler: a bounded queue of tasks, each fired once its
//! period has passed.
//!
//! A task is a tag, not a callable: a pass over the queue returns the tasks
//! that fired, in queue order, and the caller dispatches them. Time is a
//! 32-bit microsecond counter that wraps round.

use crate::bounded::{queued_tasks, tasks_dequeue, tasks_enqueue, tasks_len, tasks_new};
use crate::hexcore_errors::SchedulerError;
use vstd::prelude::*;

verus! {

/// Number of slots in the task queue.
pub const TASK_SLOTS: usize = 32;

/// Largest number of tasks queued at once: a ring of `TASK_SLOTS` slots keeps
/// one slot free.
pub const MAX_TASKS: usize = 31;

/// What a task stands for.
#[derive(Copy, Clone, Debug, PartialEq, Eq, Structural)]
pub enum TaskKind {
    /// The network layer polls its ports.
    NetworkPoll,
    /// The network layer gives up on an answer.
    NetworkTimeout,
}

/// Names a queued task.
#[derive(Copy, Clone, Debug, PartialEq, Eq, Structural)]
pub struct TaskHandle {
    pub id: u32,
}

/// A queued task.
#[derive(Copy, Clone, Debug, PartialEq, Eq, Structural)]
pub struct TaskData {
    pub handle: TaskHandle,
    pub kind: TaskKind,
    /// Microseconds gathered since the task was queued or last fired.
    pub elapsed: u32,
    /// Microseconds from one firing to the next.
    pub period: u32,
    /// Whether the task stays queued after it has fired.
    pub auto_reload: bool,
}

/// A task that fired in a pass.
#[derive(Copy, Clone, Debug, PartialEq, Eq, Structural)]
pub struct FiredTask {
    pub handle: TaskHandle,
    pub kind: TaskKind,
}

/// Microseconds from `earlier` to `later` on a counter that wraps round at
/// 2^32.
pub open spec fn wrapping_elapsed(earlier: u32, later: u32) -> u32 {
    if later >= earlier {
        (later - earlier) as u32
    } else {
        (later - earlier + 0x1_0000_0000) as u32
    }
}

/// The handle after `handle`, wrapping round at 2^32.
pub open spec fn next_handle_id(id: u32) -> u32 {
    if id == u32::MAX {
        0
    } else {
        (id + 1) as u32
    }
}

/// Whether a task fires in a pass that brings `delta` more microseconds.
pub open spec fn task_fires(task: TaskData, delta: u32) -> bool {
    task.elapsed + delta >= task.period
}

/// A task after a pass that brings `delta` more microseconds: it gathers the
/// time while it waits; once it fires it starts again from zero, whatever it
/// had gathered beyond its period, or leaves the queue (`None`) if it was to
/// fire once.
pub open spec fn task_after(task: TaskData, delta: u32) -> Option<TaskData> {
    if !task_fires(task, delta) {
        Some(TaskData { elapsed: (task.elapsed + delta) as u32, ..task })
    } else if task.auto_reload {
        Some(TaskData { elapsed: 0, ..task })
    } else {
        None
    }
}

/// The queue after a pass: the tasks that stay, in their old order.
pub open spec fn tasks_after(tasks: Seq<TaskData>, delta: u32) -> Seq<TaskData>
    decreases tasks.len(),
{
    if tasks.len() == 0 {
        Seq::empty()
    } else {
        let before = tasks_after(tasks.drop_last(), delta);
        match task_after(tasks.last(), delta) {
            Some(task) => before.push(task),
            None => before,
        }
    }
}

/// The tasks that fire in a pass, in queue order.
pub open spec fn tasks_fired(tasks: Seq<TaskData>, delta: u32) -> Seq<FiredTask>
    decreases tasks.len(),
{
    if tasks.len() == 0 {
        Seq::empty()
    } else {
        let before = tasks_fired(tasks.drop_last(), delta);
        if task_fires(tasks.last(), delta) {
            before.push(FiredTask { handle: tasks.last().handle, kind: tasks.last().kind })
        } else {
            before
        }
    }
}

/// No pass leaves more tasks queued than it found, nor fires more than it found.
pub proof fn lemma_pass_never_grows(tasks: Seq<TaskData>, delta: u32)
    ensures
        tasks_after(tasks, delta).len() <= tasks.len(),
        tasks_fired(tasks, delta).len() <= tasks.len(),
    decreases tasks.len(),
{
    if tasks.len() > 0 {
        lemma_pass_never_grows(tasks.drop_last(), delta);
    }
}

/// The microseconds that a run of passes brings in all.
pub open spec fn total_elapsed(deltas: Seq<u32>) -> int
    decreases deltas.len(),
{
    if deltas.len() == 0 {
        0
    } else {
        deltas[0] + total_elapsed(deltas.drop_first())
    }
}

/// A task after a run of passes, one for each of `deltas`; `None` once it has
/// left the queue.
pub open spec fn task_over(task: Option<TaskData>, deltas: Seq<u32>) -> Option<TaskData>
    decreases deltas.len(),
{
    if deltas.len() == 0 {
        task
    } else {
        match task {
            Some(queued) => task_over(task_after(queued, deltas[0]), deltas.drop_first()),
            None => None,
        }
    }
}

/// How often a task fires in a run of passes, one for each of `deltas`.
pub open spec fn firings_over(task: Option<TaskData>, deltas: Seq<u32>) -> nat
    decreases deltas.len(),
{
    if deltas.len() == 0 {
        0
    } else {
        match task {
            Some(queued) => {
                let now: nat = if task_fires(queued, deltas[0]) {
                    1
                } else {
                    0
                };
                now + firings_over(task_after(queued, deltas[0]), deltas.drop_first())
            },
            None => 0,
        }
    }
}

/// A run of passes never brings a negative time.
pub proof fn lemma_total_elapsed_bounds(deltas: Seq<u32>)
    ensures
        total_elapsed(deltas) >= 0,
        deltas.len() > 0 ==> total_elapsed(deltas) >= deltas[0],
    decreases deltas.len(),
{
    if deltas.len() > 0 {
        lemma_total_elapsed_bounds(deltas.drop_first());
    }
}

/// A run of passes followed by one more pass: the times add up, the firings
/// add up, and the task ends where the last pass leaves it.
pub proof fn lemma_one_more_pass(task: Option<TaskData>, deltas: Seq<u32>, last: u32)
    ensures
        total_elapsed(deltas.push(last)) == total_elapsed(deltas) + last,
        task_over(task, deltas.push(last)) == task_over(task_over(task, deltas), seq![last]),
        firings_over(task, deltas.push(last)) == firings_over(task, deltas) + firings_over(
            task_over(task, deltas),
            seq![last],
        ),
    decreases deltas.len(),
{
    if deltas.len() == 0 {
        let single = deltas.push(last);
        assert(single =~= seq![last]);
        assert(single.drop_first() =~= Seq::<u32>::empty());
        assert(total_elapsed(single) == last + total_elapsed(single.drop_first()));
        assert(total_elapsed(single.drop_first()) == 0);
    } else {
        assert(deltas.push(last).drop_first() =~= deltas.drop_first().push(last));
        match task {
            Some(queued) => {
                lemma_one_more_pass(task_after(queued, deltas[0]), deltas.drop_first(), last);
            },
            None => {
                lemma_one_more_pass(None, deltas.drop_first(), last);
            },
        }
    }
}

/// Law of waiting: while the time gathered stays short of the period the task
/// does not fire, and keeps every microsecond.
pub proof fn lemma_waits_until_period(task: TaskData, deltas: Seq<u32>)
    requires
        task.elapsed + total_elapsed(deltas) < task.period,
    ensures
        firings_over(Some(task), deltas) == 0,
        task_over(Some(task), deltas) == Some(
            TaskData { elapsed: (task.elapsed + total_elapsed(deltas)) as u32, ..task },
        ),
    decreases deltas.len(),
{
    lemma_total_elapsed_bounds(deltas);
    if deltas.len() > 0 {
        lemma_total_elapsed_bounds(deltas.drop_first());
        let waiting = TaskData { elapsed: (task.elapsed + deltas[0]) as u32, ..task };
        assert(task_after(task, deltas[0]) == Some(waiting));
        lemma_waits_until_period(waiting, deltas.drop_first());
    }
}

/// Law of the one-shot task: over any run of passes it fires at most once, and
/// it fires exactly when a pass has been made and the time gathered has
/// reached its period; after that it is gone.
pub proof fn lemma_one_shot_fires_once(task: TaskData, deltas: Seq<u32>)
    requires
        !task.auto_reload,
    ensures
        firings_over(Some(task), deltas) <= 1,
        firings_over(Some(task), deltas) == 1 <==> deltas.len() > 0 && task.elapsed
            + total_elapsed(deltas) >= task.period,
        firings_over(Some(task), deltas) == 1 ==> task_over(Some(task), deltas) is None,
    decreases deltas.len(),
{
    lemma_total_elapsed_bounds(deltas);
    if deltas.len() > 0 {
        let rest = deltas.drop_first();
        lemma_total_elapsed_bounds(rest);
        if task_fires(task, deltas[0]) {
            lemma_gone_stays_gone(rest);
        } else {
            let waiting = TaskData { elapsed: (task.elapsed + deltas[0]) as u32, ..task };
            assert(task_after(task, deltas[0]) == Some(waiting));
            lemma_one_shot_fires_once(waiting, rest);
        }
    }
}

/// A task that has left the queue never fires again.
pub proof fn lemma_gone_stays_gone(deltas: Seq<u32>)
    ensures
        firings_over(None, deltas) == 0,
        task_over(None, deltas) is None,
    decreases deltas.len(),
{
    if deltas.len() > 0 {
        lemma_gone_stays_gone(deltas.drop_first());
    }
}

/// Law of the periodic task: the pass in which the time gathered reaches the
/// period fires it once, and it starts again from zero whatever the pass
/// brought beyond the period.
pub proof fn lemma_periodic_fires_once_per_period(task: TaskData, quiet: Seq<u32>, last: u32)
    requires
        task.auto_reload,
        task.elapsed + total_elapsed(quiet) < task.period,
        task.elapsed + total_elapsed(quiet) + last >= task.period,
    ensures
        firings_over(Some(task), quiet.push(last)) == 1,
        task_over(Some(task), quiet.push(last)) == Some(TaskData { elapsed: 0, ..task }),
{
    lemma_total_elapsed_bounds(quiet);
    lemma_waits_until_period(task, quiet);
    lemma_one_more_pass(Some(task), quiet, last);
    let waiting = TaskData { elapsed: (task.elapsed + total_elapsed(quiet)) as u32, ..task };
    let single = seq![last];
    assert(single.drop_first() =~= Seq::<u32>::empty());
    assert(task_fires(waiting, single[0]));
    assert(task_after(waiting, single[0]) == Some(TaskData { elapsed: 0, ..task }));
    assert(firings_over(task_after(waiting, single[0]), single.drop_first()) == 0);
    assert(task_over(task_after(waiting, single[0]), single.drop_first()) == task_after(
        waiting,
        single[0],
    ));
}

/// Law of the queue: a pass serves each task by itself, in queue order. What
/// it does to two queues joined is what it does to each, joined.
pub proof fn lemma_pass_serves_each_task(first: Seq<TaskData>, second: Seq<TaskData>, delta: u32)
    ensures
        tasks_after(first + second, delta) == tasks_after(first, delta) + tasks_after(
            second,
            delta,
        ),
        tasks_fired(first + second, delta) == tasks_fired(first, delta) + tasks_fired(
            second,
            delta,
        ),
    decreases second.len(),
{
    if second.len() == 0 {
        assert(first + second =~= first);
        assert(tasks_after(first, delta) + tasks_after(second, delta) =~= tasks_after(
            first,
            delta,
        ));
        assert(tasks_fired(first, delta) + tasks_fired(second, delta) =~= tasks_fired(
            first,
            delta,
        ));
    } else {
        let whole = first + second;
        assert(whole.drop_last() =~= first + second.drop_last());
        assert(whole.last() == second.last());
        lemma_pass_serves_each_task(first, second.drop_last(), delta);
        assert(tasks_after(whole, delta) =~= tasks_after(first, delta) + tasks_after(
            second,
            delta,
        ));
        assert(tasks_fired(whole, delta) =~= tasks_fired(first, delta) + tasks_fired(
            second,
            delta,
        ));
    }
}

/// A pass over a queue of one task does to the queue what it does to the
/// task.
pub proof fn lemma_pass_on_one_task(task: TaskData, delta: u32)
    ensures
        tasks_after(seq![task], delta) == match task_after(task, delta) {
            Some(after) => seq![after],
            None => Seq::<TaskData>::empty(),
        },
        tasks_fired(seq![task], delta) == if task_fires(task, delta) {
            seq![FiredTask { handle: task.handle, kind: task.kind }]
        } else {
            Seq::<FiredTask>::empty()
        },
{
    let single = seq![task];
    assert(single.drop_last() =~= Seq::<TaskData>::empty());
    assert(single.last() == task);
    assert(tasks_after(single.drop_last(), delta) =~= Seq::<TaskData>::empty());
    assert(tasks_fired(single.drop_last(), delta) =~= Seq::<FiredTask>::empty());
    match task_after(task, delta) {
        Some(after) => {
            assert(tasks_after(single, delta) =~= seq![after]);
        },
        None => {},
    }
    if task_fires(task, delta) {
        assert(tasks_fired(single, delta) =~= seq![
            FiredTask { handle: task.handle, kind: task.kind },
        ]);
    }
}

/// The scheduler of one cell.
pub struct Scheduler {
    task_queue: heapless::spsc::Queue<TaskData, TASK_SLOTS>,
    last_tick: u32,
    next_handle: u32,
}

impl Scheduler {
    /// The queued tasks, oldest first.
    pub closed spec fn tasks(&self) -> Seq<TaskData> {
        queued_tasks(self.task_queue)
    }

    /// The time of the last pass.
    pub closed spec fn last_tick(&self) -> u32 {
        self.last_tick
    }

    /// The handle the next queued task gets.
    pub closed spec fn next_handle(&self) -> u32 {
        self.next_handle
    }

    /// A scheduler with no task, at time zero.
    pub fn new() -> (scheduler: Scheduler)
        ensures
            scheduler.tasks() == Seq::<TaskData>::empty(),
            scheduler.last_tick() == 0,
            scheduler.next_handle() == 0,
    {
        Scheduler { task_queue: tasks_new(), last_tick: 0, next_handle: 0 }
    }

    /// Sets the time from which the next pass measures.
    pub fn init(&mut self, now: u32)
        ensures
            final(self).last_tick() == now,
            final(self).tasks() == old(self).tasks(),
            final(self).next_handle() == old(self).next_handle(),
    {
        self.last_tick = now
    }

    /// Number of queued tasks.
    pub fn len(&self) -> (len: usize)
        ensures
            len == self.tasks().len(),
            len <= MAX_TASKS,
    {
        tasks_len(&self.task_queue)
    }

    /// Queues a task of the given kind behind the others, to fire every
    /// `period` microseconds, or once if `once` is set. A full scheduler
    /// stays as it is and reports `CapacityExceeded`.
    pub fn queue_task(&mut self, kind: TaskKind, period: u32, once: bool) -> (queued: Result<
        TaskHandle,
        SchedulerError,
    >)
        ensures
            old(self).tasks().len() < MAX_TASKS ==> queued is Ok && queued->Ok_0 == (TaskHandle {
                id: old(self).next_handle(),
            }) && final(self).tasks() == old(self).tasks().push(
                TaskData {
                    handle: TaskHandle { id: old(self).next_handle() },
                    kind,
                    elapsed: 0,
                    period,
                    auto_reload: !once,
                },
            ) && final(self).next_handle() == next_handle_id(old(self).next_handle()),
            old(self).tasks().len() >= MAX_TASKS ==> queued is Err && queued->Err_0
                == SchedulerError::CapacityExceeded && final(self).tasks() == old(self).tasks()
                && final(self).next_handle() == old(self).next_handle(),
            final(self).last_tick() == old(self).last_tick(),
    {
        let handle = TaskHandle { id: self.next_handle };
        let task = TaskData { handle, kind, elapsed: 0, period, auto_reload: !once };
        match tasks_enqueue(&mut self.task_queue, task) {
            Ok(()) => {
                self.next_handle = self.next_handle.wrapping_add(1);
                Ok(handle)
            },
            Err(_) => Err(SchedulerError::CapacityExceeded),
        }
    }

    /// One pass at time `now`: every queued task gathers the microseconds
    /// since the last pass; a task that has gathered its period fires once and
    /// starts again from zero, or leaves the queue if it was to fire once.
    /// Returns the tasks that fired, in queue order.
    pub fn run(&mut self, now: u32) -> (fired: Vec<FiredTask>)
        ensures
            final(self).tasks() == tasks_after(
                old(self).tasks(),
                wrapping_elapsed(old(self).last_tick(), now),
            ),
            fired@ == tasks_fired(old(self).tasks(), wrapping_elapsed(old(self).last_tick(), now)),
            final(self).last_tick() == now,
            final(self).next_handle() == old(self).next_handle(),
    {
        let delta: u32 = now.wrapping_sub(self.last_tick);
        self.last_tick = now;
        let ghost before = self.tasks();
        let count: usize = tasks_len(&self.task_queue);
        let mut fired: Vec<FiredTask> = Vec::new();
        let mut seen: usize = 0;
        while seen < count
            invariant
                seen <= count,
                count == before.len(),
                count < TASK_SLOTS,
                before == old(self).tasks(),
                delta == wrapping_elapsed(old(self).last_tick(), now),
                self.last_tick == now,
                self.next_handle == old(self).next_handle,
                self.tasks() == before.subrange(seen as int, count as int) + tasks_after(
                    before.take(seen as int),
                    delta,
                ),
                fired@ == tasks_fired(before.take(seen as int), delta),
            decreases count - seen,
        {
            proof {
                lemma_pass_never_grows(before.take(seen as int), delta);
                assert(before.take(seen as int + 1).drop_last() == before.take(seen as int));
                assert(before.take(seen as int + 1).last() == before[seen as int]);
            }
            let front = tasks_dequeue(&mut self.task_queue);
            match front {
                Some(task) => {
                    let total: u64 = task.elapsed as u64 + delta as u64;
                    if total >= task.period as u64 {
                        fired.push(FiredTask { handle: task.handle, kind: task.kind });
                        if task.auto_reload {
                            let mut again = task;
                            again.elapsed = 0;
                            let _ = tasks_enqueue(&mut self.task_queue, again);
                        }
                    } else {
                        let mut waiting = task;
                        waiting.elapsed = total as u32;
                        let _ = tasks_enqueue(&mut self.task_queue, waiting);
                    }
                },
                None => {},
            }
            seen = seen + 1;
            assert(self.tasks() == before.subrange(seen as int, count as int) + tasks_after(
                before.take(seen as int),
                delta,
            ));
        }
        assert(before.take(count as int) == before);
        fired
    }
}

} // verus!
