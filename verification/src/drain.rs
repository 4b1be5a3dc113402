use vstd::prelude::*;

verus! {

/// Says that every task in `ts` may be invoked: each one's precondition
/// (with no arguments) is satisfied, so a worker may run it.
pub open spec fn all_callable<F: FnOnce()>(ts: Seq<F>) -> bool {
    forall|i: int| 0 <= i < ts.len() ==> call_requires(#[trigger] ts[i], ())
}

/// Remove and return the task at the front of the queue, or `None`
/// when the queue is empty.
///
/// This is the single dequeue step a worker performs while holding
/// exclusive access to the shared queue: exactly the oldest task leaves
/// the queue, and the remaining tasks keep their relative order. A
/// runner must call it with the queue locked, release the lock, and
/// only then invoke the task it received, so one slow task never blocks
/// the other workers' dequeues.
pub fn take_next<F>(tasks: &mut Vec<F>) -> (r: Option<F>)
    ensures
        old(tasks)@.len() == 0 ==> r is None && final(tasks)@ =~= old(tasks)@,
        old(tasks)@.len() > 0 ==> (r matches Some(f) && f == old(tasks)@[0])
            && final(tasks)@ =~= old(tasks)@.drop_first(),
{
    if tasks.len() == 0 {
        None
    } else {
        Some(tasks.remove(0))
    }
}

/// Run every queued task on the calling thread, oldest first, until
/// the queue is empty.
///
/// This is the consume loop of a single worker: repeatedly dequeue the
/// oldest task and invoke it. Each task that was queued is invoked —
/// the final clause can only be established by actually calling every
/// task — and, a task being one-shot, none can be invoked a second
/// time, so every task runs exactly once.
pub fn run_all<F: FnOnce()>(tasks: &mut Vec<F>)
    requires
        all_callable(old(tasks)@),
    ensures
        final(tasks)@.len() == 0,
        forall|i: int| 0 <= i < old(tasks)@.len() ==> call_ensures(
            #[trigger] old(tasks)@[i],
            (),
            (),
        ),
{
    let ghost submitted = tasks@;
    while tasks.len() > 0
        invariant
            tasks@.len() <= submitted.len(),
            tasks@ =~= submitted.subrange(
                submitted.len() - tasks@.len(),
                submitted.len() as int,
            ),
            all_callable(tasks@),
            forall|i: int| 0 <= i < submitted.len() - tasks@.len() ==> call_ensures(
                #[trigger] submitted[i],
                (),
                (),
            ),
        decreases tasks.len(),
    {
        let next = take_next(tasks);
        match next {
            Some(task) => {
                task();
            },
            None => {
            },
        }
    }
}

/// The tasks still queued after `k` dequeue steps have been taken on a
/// queue that started as `tasks`.
pub open spec fn queue_after<T>(tasks: Seq<T>, k: int) -> Seq<T>
    recommends
        0 <= k <= tasks.len(),
{
    tasks.subrange(k, tasks.len() as int)
}

/// The tasks handed out to workers by the first `k` dequeue steps, in
/// the order they were handed out.
pub open spec fn dequeued_after<T>(tasks: Seq<T>, k: int) -> Seq<T>
    recommends
        0 <= k <= tasks.len(),
{
    tasks.subrange(0, k)
}

/// One dequeue step behaves as `take_next` promises: after `k` steps
/// the queue is non-empty, its head is the task submitted `k`-th, the
/// step removes exactly that head, and that head is what the step adds
/// to the dequeued tasks.
pub proof fn lemma_dequeue_step<T>(tasks: Seq<T>, k: int)
    requires
        0 <= k < tasks.len(),
    ensures
        queue_after(tasks, k).len() > 0,
        queue_after(tasks, k)[0] == tasks[k],
        queue_after(tasks, k).drop_first() =~= queue_after(tasks, k + 1),
        dequeued_after(tasks, k + 1) =~= dequeued_after(tasks, k).push(tasks[k]),
{
}

/// Every submitted task is dequeued exactly once: draining a queue of
/// `n` tasks takes exactly `n` dequeue steps, after which the queue is
/// empty and the sequence of dequeued tasks is exactly the sequence
/// that was submitted — nothing is lost, duplicated, or invented. In
/// particular the tasks handed out, counted with multiplicity, are the
/// tasks submitted, so no two workers can be handed the same task
/// instance.
pub proof fn lemma_drain_runs_all<T>(tasks: Seq<T>)
    ensures
        queue_after(tasks, tasks.len() as int).len() == 0,
        dequeued_after(tasks, tasks.len() as int) =~= tasks,
        dequeued_after(tasks, tasks.len() as int).to_multiset() == tasks.to_multiset(),
{
    assert(dequeued_after(tasks, tasks.len() as int) =~= tasks);
}

/// Dequeue order is FIFO: if task `i` was submitted strictly before
/// task `j`, then task `i` is handed to a worker at the earlier dequeue
/// step `i` and task `j` at the later step `j` — the `k`-th step always
/// hands out the task that was submitted `k`-th.
pub proof fn lemma_dequeue_is_fifo<T>(tasks: Seq<T>, i: int, j: int)
    requires
        0 <= i < j < tasks.len(),
    ensures
        dequeued_after(tasks, tasks.len() as int)[i] == tasks[i],
        dequeued_after(tasks, tasks.len() as int)[j] == tasks[j],
{
}

} // verus!
