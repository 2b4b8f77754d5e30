//! The pool: the queue's sending side and the set of workers.

use crate::model::{count_in, PoolError, PoolState, SubmitError};
use crate::queue::JobQueue;
use crate::worker::{JobOutcome, Turn, Worker, WorkerState};
use vstd::prelude::*;

verus! {

/// A pool of a fixed number of workers round one queue of jobs of type `J`.
pub struct ThreadPool<J> {
    workers: Vec<Worker>,
    queue: JobQueue<J>,
    accepted: Ghost<Seq<J>>,
    dispatched: Ghost<Seq<J>>,
    finished: Ghost<nat>,
}

impl<J> View for ThreadPool<J> {
    type V = PoolState<J>;

    closed spec fn view(&self) -> PoolState<J> {
        PoolState {
            workers: Seq::new(self.workers@.len(), |i: int| self.workers@[i].state),
            queue: self.queue@,
            accepted: self.accepted@,
            dispatched: self.dispatched@,
            finished: self.finished@,
        }
    }
}

impl<J> ThreadPool<J> {
    /// Worker ordinals are `0..size`: each worker carries its own index.
    pub closed spec fn ordinals_in_place(&self) -> bool {
        forall|i: int| 0 <= i < self.workers@.len() ==> self.workers@[i].id == i
    }

    /// Whether this is a pool that the protocol can reach.
    pub open spec fn wf(&self) -> bool {
        &&& self.ordinals_in_place()
        &&& self@.inv()
    }

    /// A pool of `size` idle workers with ordinals `0..size` round an open,
    /// empty queue. A pool of no workers is refused.
    pub fn new(size: usize) -> (result: Result<ThreadPool<J>, PoolError>)
        ensures
            size == 0 ==> result == Err::<ThreadPool<J>, PoolError>(PoolError::InvalidArgument),
            size >= 1 ==> result is Ok,
            result matches Ok(pool) ==> {
                &&& pool.wf()
                &&& pool@ == PoolState::<J>::fresh(size as nat)
                &&& pool@.live() == size
            },
    {
        if size == 0 {
            return Err(PoolError::InvalidArgument);
        }
        let mut workers: Vec<Worker> = Vec::new();
        let mut id: usize = 0;
        while id < size
            invariant
                id <= size,
                workers@.len() == id,
                forall|i: int|
                    0 <= i < id ==> workers@[i].id == i && workers@[i].state == WorkerState::Idle,
            decreases size - id,
        {
            workers.push(Worker::new(id));
            id += 1;
        }
        let pool = ThreadPool {
            workers,
            queue: JobQueue::new(),
            accepted: Ghost(Seq::empty()),
            dispatched: Ghost(Seq::empty()),
            finished: Ghost(0),
        };
        proof {
            assert(pool@.workers =~= PoolState::<J>::fresh(size as nat).workers);
            PoolState::<J>::lemma_fresh(size as nat);
        }
        Ok(pool)
    }

    /// Submits `job`. While the pool is open the job is accepted and goes to
    /// the tail of the queue; after shutdown it is turned down and nothing
    /// changes. No worker changes either way.
    pub fn execute(&mut self, job: J) -> (result: Result<(), SubmitError>)
        requires
            old(self).wf(),
        ensures
            final(self).wf(),
            final(self)@ == old(self)@.after_submit(job),
            result == old(self)@.submit_result(),
    {
        proof {
            self@.lemma_submit(job);
        }
        match self.queue.send(job) {
            Ok(()) => {
                self.accepted = Ghost(self.accepted@.push(job));
                Ok(())
            },
            Err(_) => Err(SubmitError::SubmitAfterShutdown),
        }
    }

    /// One pass of the loop of worker `id`: what its thread does next. An
    /// idle worker is handed the oldest pending job, or told to wait when
    /// nothing is pending, or told to leave when nothing ever will be. Fails
    /// exactly when the pool has no worker `id`.
    pub fn take_turn(&mut self, id: usize) -> (result: Result<Turn<J>, PoolError>)
        requires
            old(self).wf(),
        ensures
            final(self).wf(),
            final(self)@ == old(self)@.after_turn(id as int),
            old(self)@.has_worker(id as int) ==> result == Ok::<Turn<J>, PoolError>(
                old(self)@.turn(id as int),
            ),
            !old(self)@.has_worker(id as int) ==> result == Err::<Turn<J>, PoolError>(
                PoolError::InvalidArgument,
            ),
    {
        if id >= self.workers.len() {
            return Err(PoolError::InvalidArgument);
        }
        let ghost before = self@;
        proof {
            before.lemma_turn(id as int);
        }
        let mut worker: Worker = self.workers[id];
        let turn = worker.take_turn(&mut self.queue);
        self.workers.set(id, worker);
        self.dispatched = Ghost(before.after_turn(id as int).dispatched);
        proof {
            assert(self@.workers =~= before.after_turn(id as int).workers);
        }
        Ok(turn)
    }

    /// The job that worker `id` was running has ended. The worker is idle
    /// again, whether the job completed or failed, and a failure is passed
    /// on as `JobFailure`. Where the pool has no worker `id`, or that worker
    /// is not running a job, nothing changes and the answer is
    /// `InvalidArgument`.
    pub fn finish(&mut self, id: usize, outcome: JobOutcome) -> (result: Result<(), PoolError>)
        requires
            old(self).wf(),
        ensures
            final(self).wf(),
            final(self)@ == old(self)@.after_finish(id as int),
            !old(self)@.is_executing(id as int) ==> result == Err::<(), PoolError>(
                PoolError::InvalidArgument,
            ),
            old(self)@.is_executing(id as int) && outcome == JobOutcome::Completed ==> result
                == Ok::<(), PoolError>(()),
            old(self)@.is_executing(id as int) && outcome == JobOutcome::Failed ==> result
                == Err::<(), PoolError>(PoolError::JobFailure),
    {
        if id >= self.workers.len() {
            return Err(PoolError::InvalidArgument);
        }
        let ghost before = self@;
        proof {
            before.lemma_finish(id as int);
        }
        let mut worker: Worker = self.workers[id];
        let was_executing = worker.finish();
        if !was_executing {
            return Err(PoolError::InvalidArgument);
        }
        self.workers.set(id, worker);
        self.finished = Ghost(self.finished@ + 1);
        proof {
            assert(self@.workers =~= before.after_finish(id as int).workers);
        }
        match outcome {
            JobOutcome::Completed => Ok(()),
            JobOutcome::Failed => Err(PoolError::JobFailure),
        }
    }

    /// Shuts the pool down: closes the queue, so that no further job is
    /// accepted and every worker leaves once the backlog is drained, and
    /// names the workers to wait for, by increasing ordinal. A second
    /// shutdown changes nothing and names no worker.
    pub fn shutdown(&mut self) -> (to_join: Vec<usize>)
        requires
            old(self).wf(),
        ensures
            final(self).wf(),
            final(self)@ == old(self)@.after_shutdown(),
            to_join@ == old(self)@.join_order(),
    {
        proof {
            self@.lemma_shutdown();
        }
        let mut to_join: Vec<usize> = Vec::new();
        if self.queue.is_closed() {
            assert(self@ == old(self)@.after_shutdown());
            return to_join;
        }
        self.queue.close();
        let mut i: usize = 0;
        while i < self.workers.len()
            invariant
                i <= self.workers@.len(),
                self.ordinals_in_place(),
                to_join@.len() == i,
                forall|k: int| 0 <= k < i ==> to_join@[k] == k,
            decreases self.workers@.len() - i,
        {
            to_join.push(self.workers[i].id);
            i += 1;
        }
        proof {
            assert(to_join@ =~= old(self)@.join_order());
        }
        to_join
    }

    /// The number of workers the pool was made with.
    pub fn size(&self) -> (n: usize)
        ensures
            n == self@.size(),
    {
        self.workers.len()
    }

    /// The number of workers that have not terminated.
    pub fn live_workers(&self) -> (n: usize)
        ensures
            n == self@.live(),
    {
        let mut live: usize = 0;
        let mut i: usize = 0;
        let ghost states = self@.workers;
        proof {
            assert(states.take(0) =~= Seq::<WorkerState>::empty());
        }
        while i < self.workers.len()
            invariant
                i <= self.workers@.len(),
                states == self@.workers,
                live + count_in(states.take(i as int), WorkerState::Terminated) == i,
            decreases self.workers@.len() - i,
        {
            proof {
                assert(states.take(i + 1).drop_last() =~= states.take(i as int));
            }
            match self.workers[i].state {
                WorkerState::Terminated => {},
                _ => {
                    live += 1;
                },
            }
            i += 1;
        }
        proof {
            assert(states.take(i as int) =~= states);
        }
        live
    }

    /// Whether every worker has terminated: whether waiting for all of them
    /// would return at once.
    pub fn is_terminated(&self) -> (done: bool)
        ensures
            done == self@.terminated(),
    {
        let mut i: usize = 0;
        while i < self.workers.len()
            invariant
                i <= self.workers@.len(),
                forall|k: int| 0 <= k < i ==> self@.workers[k] == WorkerState::Terminated,
            decreases self.workers@.len() - i,
        {
            match self.workers[i].state {
                WorkerState::Terminated => {},
                _ => {
                    assert(self@.workers[i as int] != WorkerState::Terminated);
                    return false;
                },
            }
            i += 1;
        }
        true
    }

    /// Whether the pool has been shut down.
    pub fn is_shutdown(&self) -> (closed: bool)
        ensures
            closed == self@.is_shutdown(),
    {
        self.queue.is_closed()
    }

    /// The number of jobs that were accepted and not yet handed to a worker.
    pub fn pending(&self) -> (n: usize)
        ensures
            n == self@.queue.pending.len(),
    {
        self.queue.len()
    }

    /// The state of worker `id`, if the pool has one.
    pub fn worker_state(&self, id: usize) -> (state: Option<WorkerState>)
        ensures
            state == if self@.has_worker(id as int) {
                Some(self@.workers[id as int])
            } else {
                None
            },
    {
        if id < self.workers.len() {
            Some(self.workers[id].state)
        } else {
            None
        }
    }
}

} // verus!
