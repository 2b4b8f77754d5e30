//! One worker: the state machine behind one dedicated thread.

use crate::queue::{JobQueue, QueueState, Received};
use vstd::prelude::*;

verus! {

/// Where a worker stands.
#[derive(Clone, Copy, Debug, PartialEq, Eq, Structural)]
pub enum WorkerState {
    /// Waiting for its next job.
    Idle,
    /// Running a job it was handed.
    Executing,
    /// Saw the end of the stream and left. A worker never comes back from
    /// here.
    Terminated,
}

/// What a worker's thread does after a turn at the queue.
pub enum Turn<J> {
    /// Run this job, then report that it finished.
    Run(J),
    /// Nothing is pending: wait until the queue changes, then take a turn
    /// again.
    Wait,
    /// The worker is still running a job: it takes no job before that one
    /// has finished.
    Busy,
    /// The worker has terminated: leave the loop.
    Exit,
}

/// How a job ended.
#[derive(Clone, Copy, Debug, PartialEq, Eq, Structural)]
pub enum JobOutcome {
    /// The job ran to its end.
    Completed,
    /// The job raised an error that it did not handle itself.
    Failed,
}

impl WorkerState {
    /// Whether a worker in this state looks at the queue when it takes a turn.
    pub open spec fn polls(self) -> bool {
        self == WorkerState::Idle
    }

    /// The state after a turn at a queue that stood at `queue`.
    pub open spec fn after_turn<J>(self, queue: QueueState<J>) -> WorkerState {
        if self.polls() {
            match queue.received() {
                Received::Job(_) => WorkerState::Executing,
                Received::Empty => WorkerState::Idle,
                Received::EndOfStream => WorkerState::Terminated,
            }
        } else {
            self
        }
    }

    /// What the worker's thread is told after that turn.
    pub open spec fn turn<J>(self, queue: QueueState<J>) -> Turn<J> {
        match self {
            WorkerState::Idle => match queue.received() {
                Received::Job(job) => Turn::Run(job),
                Received::Empty => Turn::Wait,
                Received::EndOfStream => Turn::Exit,
            },
            WorkerState::Executing => Turn::Busy,
            WorkerState::Terminated => Turn::Exit,
        }
    }

    /// The state after its job ended, however it ended: an executing worker
    /// is idle again, any other stays as it is.
    pub open spec fn after_finish(self) -> WorkerState {
        if self == WorkerState::Executing {
            WorkerState::Idle
        } else {
            self
        }
    }
}

/// A worker: its ordinal and its state.
#[derive(Clone, Copy, Debug)]
pub struct Worker {
    pub id: usize,
    pub state: WorkerState,
}

impl Worker {
    /// The worker with ordinal `id`, idle.
    pub fn new(id: usize) -> (worker: Worker)
        ensures
            worker.id == id,
            worker.state == WorkerState::Idle,
    {
        Worker { id, state: WorkerState::Idle }
    }

    /// One pass of the worker's loop. An idle worker takes the head of the
    /// queue and starts executing it, or waits on an open empty queue, or
    /// terminates on a closed empty one. A worker that is executing or has
    /// terminated leaves the queue alone.
    pub fn take_turn<J>(&mut self, queue: &mut JobQueue<J>) -> (turn: Turn<J>)
        ensures
            turn == old(self).state.turn(old(queue)@),
            final(self).state == old(self).state.after_turn(old(queue)@),
            final(self).id == old(self).id,
            final(queue)@ == if old(self).state.polls() {
                old(queue)@.after_receive()
            } else {
                old(queue)@
            },
    {
        match self.state {
            WorkerState::Idle => match queue.receive() {
                Received::Job(job) => {
                    self.state = WorkerState::Executing;
                    Turn::Run(job)
                },
                Received::Empty => Turn::Wait,
                Received::EndOfStream => {
                    self.state = WorkerState::Terminated;
                    Turn::Exit
                },
            },
            WorkerState::Executing => Turn::Busy,
            WorkerState::Terminated => Turn::Exit,
        }
    }

    /// The job that the worker was running has ended. The worker is idle
    /// again whether the job completed or failed; the result says whether
    /// there was a job to end.
    pub fn finish(&mut self) -> (was_executing: bool)
        ensures
            was_executing == (old(self).state == WorkerState::Executing),
            final(self).state == old(self).state.after_finish(),
            final(self).id == old(self).id,
    {
        match self.state {
            WorkerState::Executing => {
                self.state = WorkerState::Idle;
                true
            },
            _ => false,
        }
    }
}

} // verus!
