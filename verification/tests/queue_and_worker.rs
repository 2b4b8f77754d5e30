use worker_pool::queue::{JobQueue, QueueError, Received};
use worker_pool::worker::{Turn, Worker, WorkerState};

#[test]
fn queue_hands_jobs_out_in_send_order() {
    let mut queue: JobQueue<u32> = JobQueue::new();
    assert!(!queue.is_closed());
    assert_eq!(queue.len(), 0);
    for job in [5u32, 3, 9, 3] {
        assert_eq!(queue.send(job), Ok(()));
    }
    assert_eq!(queue.len(), 4);
    let mut seen: Vec<u32> = Vec::new();
    while let Received::Job(job) = queue.receive() {
        seen.push(job);
    }
    assert_eq!(seen, vec![5, 3, 9, 3]);
    assert_eq!(queue.len(), 0);
}

#[test]
fn open_empty_queue_says_empty() {
    let mut queue: JobQueue<u32> = JobQueue::new();
    assert!(matches!(queue.receive(), Received::Empty));
    assert!(matches!(queue.receive(), Received::Empty));
    assert_eq!(queue.send(1), Ok(()));
    assert!(matches!(queue.receive(), Received::Job(1)));
    assert!(matches!(queue.receive(), Received::Empty));
}

#[test]
fn closed_queue_drains_then_ends() {
    let mut queue: JobQueue<&str> = JobQueue::new();
    assert_eq!(queue.send("a"), Ok(()));
    assert_eq!(queue.send("b"), Ok(()));
    queue.close();
    assert!(queue.is_closed());
    assert_eq!(queue.len(), 2);
    assert!(matches!(queue.receive(), Received::Job("a")));
    assert!(matches!(queue.receive(), Received::Job("b")));
    assert!(matches!(queue.receive(), Received::EndOfStream));
    assert!(matches!(queue.receive(), Received::EndOfStream));
}

#[test]
fn send_on_closed_queue_fails() {
    let mut queue: JobQueue<u32> = JobQueue::new();
    assert_eq!(queue.send(1), Ok(()));
    queue.close();
    assert_eq!(queue.send(2), Err(QueueError::QueueClosed));
    assert_eq!(queue.len(), 1);
    assert!(matches!(queue.receive(), Received::Job(1)));
    assert!(matches!(queue.receive(), Received::EndOfStream));
}

#[test]
fn close_twice_is_close_once() {
    let mut queue: JobQueue<u32> = JobQueue::new();
    assert_eq!(queue.send(4), Ok(()));
    queue.close();
    queue.close();
    assert!(queue.is_closed());
    assert_eq!(queue.len(), 1);
    assert!(matches!(queue.receive(), Received::Job(4)));
}

#[test]
fn worker_starts_idle_with_its_ordinal() {
    let worker = Worker::new(3);
    assert_eq!(worker.id, 3);
    assert_eq!(worker.state, WorkerState::Idle);
}

#[test]
fn worker_goes_round_its_loop() {
    let mut queue: JobQueue<u32> = JobQueue::new();
    let mut worker = Worker::new(0);
    assert!(matches!(worker.take_turn(&mut queue), Turn::Wait));
    assert_eq!(worker.state, WorkerState::Idle);

    assert_eq!(queue.send(10), Ok(()));
    assert_eq!(queue.send(20), Ok(()));
    assert!(matches!(worker.take_turn(&mut queue), Turn::Run(10)));
    assert_eq!(worker.state, WorkerState::Executing);
    assert_eq!(queue.len(), 1);

    assert!(matches!(worker.take_turn(&mut queue), Turn::Busy));
    assert_eq!(worker.state, WorkerState::Executing);
    assert_eq!(queue.len(), 1);

    assert!(worker.finish());
    assert_eq!(worker.state, WorkerState::Idle);
    assert!(!worker.finish());
    assert_eq!(worker.state, WorkerState::Idle);

    queue.close();
    assert!(matches!(worker.take_turn(&mut queue), Turn::Run(20)));
    assert!(worker.finish());
    assert!(matches!(worker.take_turn(&mut queue), Turn::Exit));
    assert_eq!(worker.state, WorkerState::Terminated);
    assert_eq!(worker.id, 0);
}

#[test]
fn terminated_worker_never_restarts() {
    let mut queue: JobQueue<u32> = JobQueue::new();
    queue.close();
    let mut worker = Worker::new(7);
    assert!(matches!(worker.take_turn(&mut queue), Turn::Exit));
    assert_eq!(worker.state, WorkerState::Terminated);
    assert!(!worker.finish());
    assert_eq!(worker.state, WorkerState::Terminated);

    let mut other: JobQueue<u32> = JobQueue::new();
    assert_eq!(other.send(1), Ok(()));
    assert!(matches!(worker.take_turn(&mut other), Turn::Exit));
    assert_eq!(worker.state, WorkerState::Terminated);
    assert_eq!(other.len(), 1);
}
