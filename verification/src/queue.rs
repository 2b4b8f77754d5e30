//! The job queue: pending jobs in submission order, open or closed.

use std::collections::VecDeque;
use vstd::prelude::*;

verus! {

/// The one way a send fails.
#[derive(Clone, Copy, Debug, PartialEq, Eq, Structural)]
pub enum QueueError {
    /// The queue was closed before the send.
    QueueClosed,
}

/// What one attempt to take the next job gives.
pub enum Received<J> {
    /// The job that was at the head of the queue.
    Job(J),
    /// Nothing is pending, but the queue is open: a job may still come.
    Empty,
    /// Nothing is pending and the queue is closed: no job will ever come.
    EndOfStream,
}

/// What a queue is: its pending jobs, oldest first, and whether it is open.
pub struct QueueState<J> {
    pub pending: Seq<J>,
    pub open: bool,
}

impl<J> QueueState<J> {
    /// The open queue with nothing pending.
    pub open spec fn fresh() -> Self {
        QueueState { pending: Seq::empty(), open: true }
    }

    /// The queue after an attempt to send `job`: on an open queue the job
    /// goes to the tail, on a closed one nothing changes.
    pub open spec fn after_send(self, job: J) -> Self {
        if self.open {
            QueueState { pending: self.pending.push(job), open: true }
        } else {
            self
        }
    }

    /// The queue after one attempt to receive: the head leaves, if there is
    /// one.
    pub open spec fn after_receive(self) -> Self {
        if self.pending.len() > 0 {
            QueueState { pending: self.pending.drop_first(), open: self.open }
        } else {
            self
        }
    }

    /// What one attempt to receive gives.
    pub open spec fn received(self) -> Received<J> {
        if self.pending.len() > 0 {
            Received::Job(self.pending.first())
        } else if self.open {
            Received::Empty
        } else {
            Received::EndOfStream
        }
    }

    /// The queue after closing: the backlog stays, sends end.
    pub open spec fn after_close(self) -> Self {
        QueueState { pending: self.pending, open: false }
    }
}

/// An unbounded first-in, first-out queue of jobs that can be closed once.
pub struct JobQueue<J> {
    pending: VecDeque<J>,
    open: bool,
}

impl<J> View for JobQueue<J> {
    type V = QueueState<J>;

    closed spec fn view(&self) -> QueueState<J> {
        QueueState { pending: self.pending@, open: self.open }
    }
}

impl<J> JobQueue<J> {
    /// An open queue with nothing pending.
    pub fn new() -> (queue: Self)
        ensures
            queue@ == QueueState::<J>::fresh(),
    {
        JobQueue { pending: VecDeque::new(), open: true }
    }

    /// Puts `job` at the tail. Fails, and leaves the queue as it was, exactly
    /// when the queue is closed.
    pub fn send(&mut self, job: J) -> (result: Result<(), QueueError>)
        ensures
            final(self)@ == old(self)@.after_send(job),
            old(self)@.open ==> result == Ok::<(), QueueError>(()),
            !old(self)@.open ==> result == Err::<(), QueueError>(QueueError::QueueClosed),
    {
        if self.open {
            self.pending.push_back(job);
            Ok(())
        } else {
            Err(QueueError::QueueClosed)
        }
    }

    /// Takes the job at the head, if there is one. On an empty queue it says
    /// whether a job may still come.
    pub fn receive(&mut self) -> (received: Received<J>)
        ensures
            received == old(self)@.received(),
            final(self)@ == old(self)@.after_receive(),
    {
        match self.pending.pop_front() {
            Some(job) => {
                proof {
                    assert(self.pending@ =~= old(self).pending@.drop_first());
                }
                Received::Job(job)
            },
            None => if self.open {
                Received::Empty
            } else {
                Received::EndOfStream
            },
        }
    }

    /// Closes the queue. Closing a closed queue changes nothing.
    pub fn close(&mut self)
        ensures
            final(self)@ == old(self)@.after_close(),
    {
        self.open = false;
    }

    /// Whether the queue has been closed.
    pub fn is_closed(&self) -> (closed: bool)
        ensures
            closed == !self@.open,
    {
        !self.open
    }

    /// How many jobs are pending.
    pub fn len(&self) -> (n: usize)
        ensures
            n == self@.pending.len(),
    {
        self.pending.len()
    }
}

} // verus!
