//! What a pool is, as a mathematical value, and the laws of its protocol.
//!
//! Besides the states of the workers and the queue, the model keeps a
//! history that no running code needs: every job that was ever accepted, in
//! the order of acceptance; every job that was ever handed to a worker, in
//! the order of the hand-over; and how many jobs have ended.

use crate::queue::{QueueState, Received};
use crate::worker::{Turn, WorkerState};
use vstd::prelude::*;

verus! {

/// How the pool answers its caller when it turns a request down or passes a
/// failure on.
#[derive(Clone, Copy, Debug, PartialEq, Eq, Structural)]
pub enum PoolError {
    /// A pool of no workers was asked for, or a worker was named that the
    /// pool does not have, or that has no job to end.
    InvalidArgument,
    /// A job ended in failure. The worker that ran it stays available.
    JobFailure,
}

/// Why a job was not accepted.
#[derive(Clone, Copy, Debug, PartialEq, Eq, Structural)]
pub enum SubmitError {
    /// The pool had been shut down before the job came.
    SubmitAfterShutdown,
}

/// How many of `states` are `target`.
pub open spec fn count_in(states: Seq<WorkerState>, target: WorkerState) -> nat
    decreases states.len(),
{
    if states.len() == 0 {
        0
    } else {
        count_in(states.drop_last(), target) + if states.last() == target {
            1nat
        } else {
            0nat
        }
    }
}

/// One if the state is the target, else zero.
pub open spec fn one_if(state: WorkerState, target: WorkerState) -> nat {
    if state == target {
        1
    } else {
        0
    }
}

/// Changing one state moves the count by that one state's share.
pub proof fn lemma_count_update(
    states: Seq<WorkerState>,
    i: int,
    next: WorkerState,
    target: WorkerState,
)
    requires
        0 <= i < states.len(),
    ensures
        count_in(states.update(i, next), target) + one_if(states[i], target) == count_in(
            states,
            target,
        ) + one_if(next, target),
    decreases states.len(),
{
    let changed = states.update(i, next);
    if i == states.len() - 1 {
        assert(changed.drop_last() =~= states.drop_last());
    } else {
        assert(changed.drop_last() =~= states.drop_last().update(i, next));
        lemma_count_update(states.drop_last(), i, next, target);
    }
}

/// The count is zero exactly when no state is the target, and it is the
/// length exactly when every state is.
pub proof fn lemma_count_bounds(states: Seq<WorkerState>, target: WorkerState)
    ensures
        count_in(states, target) <= states.len(),
        count_in(states, target) == 0 <==> forall|i: int|
            0 <= i < states.len() ==> states[i] != target,
        count_in(states, target) == states.len() <==> forall|i: int|
            0 <= i < states.len() ==> states[i] == target,
    decreases states.len(),
{
    if states.len() > 0 {
        let front = states.drop_last();
        lemma_count_bounds(front, target);
        assert(forall|i: int| 0 <= i < front.len() ==> front[i] == states[i]);
        if count_in(states, target) == 0 {
            assert(forall|i: int| 0 <= i < states.len() ==> states[i] != target) by {
                assert(forall|i: int| 0 <= i < front.len() ==> front[i] != target);
            }
        }
        if count_in(states, target) == states.len() {
            assert(forall|i: int| 0 <= i < states.len() ==> states[i] == target) by {
                assert(forall|i: int| 0 <= i < front.len() ==> front[i] == target);
            }
        }
    }
}

/// A pool as a value.
pub struct PoolState<J> {
    /// The state of each worker, by ordinal.
    pub workers: Seq<WorkerState>,
    /// The queue.
    pub queue: QueueState<J>,
    /// Every job ever accepted, oldest first.
    pub accepted: Seq<J>,
    /// Every job ever handed to a worker, oldest first.
    pub dispatched: Seq<J>,
    /// How many jobs have ended.
    pub finished: nat,
}

impl<J> PoolState<J> {
    /// The pool of `size` idle workers round an open, empty queue.
    pub open spec fn fresh(size: nat) -> Self {
        PoolState {
            workers: Seq::new(size, |i: int| WorkerState::Idle),
            queue: QueueState::fresh(),
            accepted: Seq::empty(),
            dispatched: Seq::empty(),
            finished: 0,
        }
    }

    /// The number of workers the pool was made with.
    pub open spec fn size(self) -> nat {
        self.workers.len()
    }

    /// The number of workers that have not terminated.
    pub open spec fn live(self) -> nat {
        (self.workers.len() - count_in(self.workers, WorkerState::Terminated)) as nat
    }

    /// The number of workers that are running a job.
    pub open spec fn executing(self) -> nat {
        count_in(self.workers, WorkerState::Executing)
    }

    /// Whether every worker has terminated: what a caller who joins all the
    /// workers waits for.
    pub open spec fn terminated(self) -> bool {
        forall|i: int| 0 <= i < self.workers.len() ==> self.workers[i] == WorkerState::Terminated
    }

    /// Whether the pool has been shut down.
    pub open spec fn is_shutdown(self) -> bool {
        !self.queue.open
    }

    /// What holds of every pool that the protocol can reach.
    pub open spec fn inv(self) -> bool {
        &&& self.workers.len() >= 1
        &&& self.accepted == self.dispatched + self.queue.pending
        &&& self.dispatched.len() == self.finished + self.executing()
        &&& forall|i: int|
            0 <= i < self.workers.len() && self.workers[i] == WorkerState::Terminated ==> {
                &&& !self.queue.open
                &&& self.queue.pending.len() == 0
            }
    }

    /// The answer to a submission.
    pub open spec fn submit_result(self) -> Result<(), SubmitError> {
        if self.queue.open {
            Ok(())
        } else {
            Err(SubmitError::SubmitAfterShutdown)
        }
    }

    /// The pool after `job` was submitted: accepted and queued while the
    /// pool is open, turned down without a trace after shutdown.
    pub open spec fn after_submit(self, job: J) -> Self {
        if self.queue.open {
            PoolState {
                workers: self.workers,
                queue: self.queue.after_send(job),
                accepted: self.accepted.push(job),
                dispatched: self.dispatched,
                finished: self.finished,
            }
        } else {
            self
        }
    }

    /// Whether the pool has a worker with this ordinal.
    pub open spec fn has_worker(self, id: int) -> bool {
        0 <= id < self.workers.len()
    }

    /// What worker `id` is told when it takes a turn.
    pub open spec fn turn(self, id: int) -> Turn<J>
        recommends
            self.has_worker(id),
    {
        self.workers[id].turn(self.queue)
    }

    /// The pool after worker `id` took a turn.
    pub open spec fn after_turn(self, id: int) -> Self {
        if self.has_worker(id) && self.workers[id].polls() {
            PoolState {
                workers: self.workers.update(id, self.workers[id].after_turn(self.queue)),
                queue: self.queue.after_receive(),
                accepted: self.accepted,
                dispatched: match self.queue.received() {
                    Received::Job(job) => self.dispatched.push(job),
                    _ => self.dispatched,
                },
                finished: self.finished,
            }
        } else {
            self
        }
    }

    /// Whether worker `id` has a job to end.
    pub open spec fn is_executing(self, id: int) -> bool {
        self.has_worker(id) && self.workers[id] == WorkerState::Executing
    }

    /// The pool after the job of worker `id` ended.
    pub open spec fn after_finish(self, id: int) -> Self {
        if self.is_executing(id) {
            PoolState {
                workers: self.workers.update(id, WorkerState::Idle),
                queue: self.queue,
                accepted: self.accepted,
                dispatched: self.dispatched,
                finished: self.finished + 1,
            }
        } else {
            self
        }
    }

    /// The pool after a shutdown: the queue is closed, the backlog stays for
    /// the workers to drain.
    pub open spec fn after_shutdown(self) -> Self {
        PoolState {
            workers: self.workers,
            queue: self.queue.after_close(),
            accepted: self.accepted,
            dispatched: self.dispatched,
            finished: self.finished,
        }
    }

    /// The workers that a shutdown tells its caller to wait for, in the
    /// order in which to wait: all of them by increasing ordinal the first
    /// time, none after that.
    pub open spec fn join_order(self) -> Seq<usize> {
        if self.queue.open {
            Seq::new(self.workers.len(), |i: int| i as usize)
        } else {
            Seq::empty()
        }
    }

    /// A fresh pool of at least one worker is a reachable pool, and all its
    /// workers are live.
    pub proof fn lemma_fresh(size: nat)
        requires
            size >= 1,
        ensures
            Self::fresh(size).inv(),
            Self::fresh(size).live() == size,
            Self::fresh(size).size() == size,
    {
        let pool = Self::fresh(size);
        lemma_count_bounds(pool.workers, WorkerState::Terminated);
        lemma_count_bounds(pool.workers, WorkerState::Executing);
        assert(pool.dispatched + pool.queue.pending =~= pool.accepted);
    }

    /// A submission leaves a reachable pool reachable, and changes no
    /// worker.
    pub proof fn lemma_submit(self, job: J)
        requires
            self.inv(),
        ensures
            self.after_submit(job).inv(),
            self.after_submit(job).workers == self.workers,
            self.after_submit(job).dispatched == self.dispatched,
    {
        let next = self.after_submit(job);
        assert(next.dispatched + next.queue.pending =~= next.accepted);
    }

    /// A worker's turn leaves a reachable pool reachable, and accepts
    /// nothing.
    pub proof fn lemma_turn(self, id: int)
        requires
            self.inv(),
        ensures
            self.after_turn(id).inv(),
            self.after_turn(id).accepted == self.accepted,
            self.after_turn(id).size() == self.size(),
    {
        let next = self.after_turn(id);
        if self.has_worker(id) && self.workers[id].polls() {
            lemma_count_update(self.workers, id, next.workers[id], WorkerState::Executing);
            assert(next.dispatched + next.queue.pending =~= next.accepted);
        }
    }

    /// The end of a job leaves a reachable pool reachable, and moves no job.
    pub proof fn lemma_finish(self, id: int)
        requires
            self.inv(),
        ensures
            self.after_finish(id).inv(),
            self.after_finish(id).live() == self.live(),
    {
        if self.is_executing(id) {
            lemma_count_update(self.workers, id, WorkerState::Idle, WorkerState::Executing);
            lemma_count_update(self.workers, id, WorkerState::Idle, WorkerState::Terminated);
        }
    }

    /// A shutdown leaves a reachable pool reachable, and drops no job.
    pub proof fn lemma_shutdown(self)
        requires
            self.inv(),
        ensures
            self.after_shutdown().inv(),
            self.after_shutdown().is_shutdown(),
            self.after_shutdown().queue.pending == self.queue.pending,
            self.after_shutdown().workers == self.workers,
    {
    }

    /// Until shutdown begins, every worker the pool was made with is live.
    pub proof fn lemma_open_pool_is_full(self)
        requires
            self.inv(),
            !self.is_shutdown(),
        ensures
            self.live() == self.size(),
    {
        lemma_count_bounds(self.workers, WorkerState::Terminated);
    }

    /// Jobs leave the queue in the order in which they were accepted, each
    /// once: at every moment the jobs handed out so far are the first of the
    /// accepted ones, in the same order, and the pending ones are the rest.
    pub proof fn lemma_dispatch_is_fifo(self)
        requires
            self.inv(),
        ensures
            self.dispatched.len() <= self.accepted.len(),
            self.dispatched == self.accepted.subrange(0, self.dispatched.len() as int),
            self.queue.pending == self.accepted.subrange(
                self.dispatched.len() as int,
                self.accepted.len() as int,
            ),
    {
        let joined = self.dispatched + self.queue.pending;
        assert(self.dispatched =~= joined.subrange(0, self.dispatched.len() as int));
        assert(self.queue.pending =~= joined.subrange(
            self.dispatched.len() as int,
            joined.len() as int,
        ));
    }

    /// Once every worker has terminated, which is what joining them waits
    /// for, the pool is shut down, nothing is pending, no worker is live,
    /// and every job that was ever accepted was handed out once, in order,
    /// and has ended.
    pub proof fn lemma_terminated_pool_is_done(self)
        requires
            self.inv(),
            self.terminated(),
        ensures
            self.is_shutdown(),
            self.queue.pending.len() == 0,
            self.live() == 0,
            self.executing() == 0,
            self.dispatched == self.accepted,
            self.finished == self.accepted.len(),
    {
        lemma_count_bounds(self.workers, WorkerState::Terminated);
        lemma_count_bounds(self.workers, WorkerState::Executing);
        assert(self.workers[0] == WorkerState::Terminated);
        assert(self.dispatched + self.queue.pending =~= self.dispatched);
    }

    /// After a shutdown a submission is turned down, and the pool stays as
    /// the shutdown left it: no job is taken in, no worker changes.
    pub proof fn lemma_submit_after_shutdown(self, job: J)
        ensures
            self.after_shutdown().submit_result() == Err::<(), SubmitError>(
                SubmitError::SubmitAfterShutdown,
            ),
            self.after_shutdown().after_submit(job) == self.after_shutdown(),
            self.after_shutdown().after_submit(job).live() == self.live(),
    {
    }

    /// A second shutdown changes nothing and names no worker to wait for.
    pub proof fn lemma_shutdown_is_idempotent(self)
        ensures
            self.after_shutdown().after_shutdown() == self.after_shutdown(),
            self.after_shutdown().join_order() == Seq::<usize>::empty(),
    {
    }
}

} // verus!
