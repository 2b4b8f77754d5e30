//! A bounded worker pool, as a state machine.
//!
//! A fixed set of workers takes turns at one shared first-in, first-out queue
//! of jobs. The pool accepts jobs while the queue is open, hands each job to
//! exactly one worker, and shuts down by closing the queue and naming the
//! workers to wait for. The pool never looks inside a job: the type of a job
//! is a parameter.
//!
//! The crate decides; it starts no thread and runs no job. Whoever drives it
//! gives every worker a thread of its own, lets that thread call
//! [`ThreadPool::take_turn`] under a lock, runs the job it is handed outside
//! the lock, and reports back with [`ThreadPool::finish`].

pub mod model;
pub mod pool;
pub mod queue;
pub mod trace;
pub mod worker;

pub use crate::model::{PoolError, PoolState, SubmitError};
pub use crate::pool::ThreadPool;
pub use crate::queue::{JobQueue, QueueError, QueueState, Received};
pub use crate::worker::{JobOutcome, Turn, Worker, WorkerState};
