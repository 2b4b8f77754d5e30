//! Runs of the protocol: what holds after any sequence of steps.

use crate::model::{lemma_count_bounds, lemma_count_update, PoolState, SubmitError};
use crate::worker::WorkerState;
use vstd::prelude::*;

verus! {

/// One step of the protocol.
pub enum Step<J> {
    /// A producer submits a job.
    Submit(J),
    /// The worker with this ordinal takes a turn at the queue.
    Turn(nat),
    /// The job of the worker with this ordinal ends.
    Finish(nat),
    /// The pool is shut down.
    Shutdown,
}

impl<J> PoolState<J> {
    /// The pool after one step.
    pub open spec fn after(self, step: Step<J>) -> Self {
        match step {
            Step::Submit(job) => self.after_submit(job),
            Step::Turn(id) => self.after_turn(id as int),
            Step::Finish(id) => self.after_finish(id as int),
            Step::Shutdown => self.after_shutdown(),
        }
    }

    /// The pool after a run of steps, first to last.
    pub open spec fn after_all(self, steps: Seq<Step<J>>) -> Self
        decreases steps.len(),
    {
        if steps.len() == 0 {
            self
        } else {
            self.after_all(steps.drop_last()).after(steps.last())
        }
    }

    /// The work that stands between the pool and the end of a shutdown: two
    /// for each pending job, which has to be taken and to end, one for each
    /// job that is running, and one for each worker that has yet to leave.
    pub open spec fn work_left(self) -> nat {
        2 * self.queue.pending.len() + self.executing() + self.live()
    }

    /// No step takes a reachable pool to an unreachable one, and no step
    /// changes the number of workers.
    pub proof fn lemma_step(self, step: Step<J>)
        requires
            self.inv(),
        ensures
            self.after(step).inv(),
            self.after(step).size() == self.size(),
    {
        match step {
            Step::Submit(job) => self.lemma_submit(job),
            Step::Turn(id) => self.lemma_turn(id as int),
            Step::Finish(id) => self.lemma_finish(id as int),
            Step::Shutdown => self.lemma_shutdown(),
        }
    }

    /// Whatever run starts from a fresh pool of `size` workers, the pool it
    /// ends in is a reachable one of `size` workers: the jobs handed out
    /// followed by the pending ones are the accepted ones, and while the
    /// pool is open all `size` workers are live.
    pub proof fn lemma_every_run_is_sound(size: nat, steps: Seq<Step<J>>)
        requires
            size >= 1,
        ensures
            Self::fresh(size).after_all(steps).inv(),
            Self::fresh(size).after_all(steps).size() == size,
            !Self::fresh(size).after_all(steps).is_shutdown() ==> Self::fresh(size).after_all(
                steps,
            ).live() == size,
        decreases steps.len(),
    {
        if steps.len() == 0 {
            Self::lemma_fresh(size);
        } else {
            Self::lemma_every_run_is_sound(size, steps.drop_last());
            Self::fresh(size).after_all(steps.drop_last()).lemma_step(steps.last());
        }
        let end = Self::fresh(size).after_all(steps);
        if !end.is_shutdown() {
            end.lemma_open_pool_is_full();
        }
    }

    /// A run from a fresh pool that ends with every worker terminated has
    /// handed out every job it accepted, once and in the order of
    /// acceptance, and every one of them has ended.
    pub proof fn lemma_finished_run_lost_nothing(size: nat, steps: Seq<Step<J>>)
        requires
            size >= 1,
            Self::fresh(size).after_all(steps).terminated(),
        ensures
            Self::fresh(size).after_all(steps).dispatched == Self::fresh(size).after_all(
                steps,
            ).accepted,
            Self::fresh(size).after_all(steps).finished == Self::fresh(size).after_all(
                steps,
            ).accepted.len(),
            Self::fresh(size).after_all(steps).live() == 0,
    {
        Self::lemma_every_run_is_sound(size, steps);
        Self::fresh(size).after_all(steps).lemma_terminated_pool_is_done();
    }

    /// Shutdown is one-way: after it, whatever run follows, the pool stays
    /// shut down, accepts no further job and turns every submission down.
    pub proof fn lemma_shutdown_is_final(self, steps: Seq<Step<J>>)
        requires
            self.is_shutdown(),
        ensures
            self.after_all(steps).is_shutdown(),
            self.after_all(steps).accepted == self.accepted,
            self.after_all(steps).submit_result() == Err::<(), SubmitError>(
                SubmitError::SubmitAfterShutdown,
            ),
        decreases steps.len(),
    {
        if steps.len() > 0 {
            self.lemma_shutdown_is_final(steps.drop_last());
        }
    }

    /// A worker never restarts: one that has terminated stays terminated
    /// whatever run follows.
    pub proof fn lemma_terminated_worker_stays(self, id: int, steps: Seq<Step<J>>)
        requires
            self.has_worker(id),
            self.workers[id] == WorkerState::Terminated,
        ensures
            self.after_all(steps).has_worker(id),
            self.after_all(steps).workers[id] == WorkerState::Terminated,
        decreases steps.len(),
    {
        if steps.len() > 0 {
            self.lemma_terminated_worker_stays(id, steps.drop_last());
        }
    }

    /// After shutdown the pool cannot stall: as long as some worker has not
    /// terminated, that worker has a step that leaves less work, be it a
    /// turn at the queue or the end of its job. So a shutdown whose jobs all
    /// end comes to its own end.
    pub proof fn lemma_shutdown_makes_progress(self, id: int)
        requires
            self.inv(),
            self.is_shutdown(),
            self.has_worker(id),
            self.workers[id] != WorkerState::Terminated,
        ensures
            self.workers[id] == WorkerState::Idle ==> self.after_turn(id).work_left()
                < self.work_left(),
            self.workers[id] == WorkerState::Executing ==> self.after_finish(id).work_left()
                < self.work_left(),
    {
        lemma_count_bounds(self.workers, WorkerState::Terminated);
        lemma_count_bounds(self.workers, WorkerState::Executing);
        if self.workers[id] == WorkerState::Idle {
            let next = self.after_turn(id);
            lemma_count_update(self.workers, id, next.workers[id], WorkerState::Executing);
            lemma_count_update(self.workers, id, next.workers[id], WorkerState::Terminated);
            lemma_count_bounds(next.workers, WorkerState::Terminated);
        } else {
            let next = self.after_finish(id);
            lemma_count_update(self.workers, id, WorkerState::Idle, WorkerState::Executing);
            lemma_count_update(self.workers, id, WorkerState::Idle, WorkerState::Terminated);
            lemma_count_bounds(next.workers, WorkerState::Terminated);
        }
    }

    /// When no work is left, every worker has terminated.
    pub proof fn lemma_no_work_left_is_the_end(self)
        requires
            self.inv(),
            self.work_left() == 0,
        ensures
            self.terminated(),
    {
        lemma_count_bounds(self.workers, WorkerState::Terminated);
    }
}

} // verus!
