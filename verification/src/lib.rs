use vstd::prelude::*;

pub mod drain;
pub mod error;

use crate::drain::all_callable;
use crate::drain::run_all;
use crate::error::ThreadPoolCreationError;

verus! {

/// A fixed-size pool of worker threads that drains a batch of queued
/// tasks: tasks are accumulated first, then run to completion across
/// the pool's threads.
///
/// A task is any one-shot callable taking no arguments; it is owned by
/// the queue from submission until exactly one worker dequeues, owns,
/// and consumes it by invoking it once.
pub struct ThreadPool<F> {
    threads: usize,
    tasks: Vec<F>,
}

impl<F> ThreadPool<F> where F: FnOnce() {
    /// The number of worker threads this pool was configured with.
    pub closed spec fn thread_count(self) -> int {
        self.threads as int
    }

    /// The queued tasks, in submission order.
    pub closed spec fn queued(self) -> Seq<F> {
        self.tasks@
    }

    /// Every queued task is ready to be invoked by a worker.
    pub open spec fn wf(self) -> bool {
        all_callable(self.queued())
    }

    /// Create a new `ThreadPool` with `n` worker threads.
    ///
    /// Fails exactly when `n` is zero — a pool with no consumers could
    /// accept tasks that would never run — and then no partial pool is
    /// returned and no thread is ever started for it.
    pub fn create(n: usize) -> (r: Result<Self, ThreadPoolCreationError>)
        ensures
            n == 0 <==> r is Err,
            r matches Ok(pool) ==> pool.thread_count() == n && pool.queued() =~= Seq::<F>::empty()
                && pool.wf(),
    {
        if n == 0 {
            return Err(ThreadPoolCreationError);
        }

        Ok(Self { threads: n, tasks: Vec::new() })
    }

    /// Queue one more task for execution.
    ///
    /// Submission never runs the task and never blocks: the task is
    /// appended behind every task submitted before it, so tasks are
    /// dequeued in submission order.
    pub fn new_task(&mut self, f: F)
        requires
            call_requires(f, ()),
            old(self).wf(),
        ensures
            final(self).thread_count() == old(self).thread_count(),
            final(self).queued() =~= old(self).queued().push(f),
            final(self).wf(),
    {
        self.tasks.push(f);
    }

    /// Consume the pool and hand back its configured worker-thread
    /// count together with the queued tasks, in submission order.
    ///
    /// This is the hand-off to a runner that spawns the worker threads:
    /// the runner places the tasks behind a shared lock and has each of
    /// the `r.0` workers loop over [`crate::drain::take_next`] under
    /// that lock. Consuming the pool makes further submission
    /// impossible once execution has begun.
    pub fn into_parts(self) -> (r: (usize, Vec<F>))
        ensures
            r.0 == self.thread_count(),
            r.1@ =~= self.queued(),
    {
        let ThreadPool { threads, tasks } = self;
        (threads, tasks)
    }

    /// Consume the pool and run every queued task on the calling
    /// thread, oldest first, returning only when all have finished.
    ///
    /// This is the pool's drain performed by a single worker: every
    /// queued task is invoked exactly once, in submission order. A
    /// multi-threaded runner distributes the same drain, one
    /// [`crate::drain::take_next`] step at a time, across the pool's
    /// workers.
    pub fn run_to_completion(self)
        requires
            self.wf(),
        ensures
            forall|i: int| 0 <= i < self.queued().len() ==> call_ensures(
                #[trigger] self.queued()[i],
                (),
                (),
            ),
    {
        let ThreadPool { threads: _, mut tasks } = self;
        run_all(&mut tasks);
    }
}

} // verus!
