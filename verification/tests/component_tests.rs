use video_backend::accumulator::{Accumulator, BLOCK_SIZE};
use video_backend::controller::{Command, VideoBackendController};
use video_backend::message::{FrameDoneMessage, FrameMessage, VideoBackendState};
use video_backend::queue::BatchQueue;
use video_backend::worker::{Worker, WorkerAction, WorkerPhase};

#[test]
fn block_size_is_240() {
    assert_eq!(BLOCK_SIZE, 240);
    assert_eq!(VideoBackendController::new().block_size(), 240);
}

#[test]
fn accumulator_refuses_zero_capacity() {
    assert!(Accumulator::new(0).is_none());
    let acc = Accumulator::new(7).unwrap();
    assert_eq!(acc.capacity(), 7);
    assert_eq!(acc.len(), 0);
    assert!(acc.is_empty());
}

#[test]
fn accumulator_seals_when_full() {
    let mut acc = Accumulator::new(3).unwrap();
    assert_eq!(acc.push(vec![1]), None);
    assert_eq!(acc.push(vec![2]), None);
    assert_eq!(acc.len(), 2);
    assert_eq!(acc.push(vec![3]), Some(vec![vec![1], vec![2], vec![3]]));
    assert_eq!(acc.len(), 0);
    assert_eq!(acc.capacity(), 3);
    assert_eq!(acc.push(vec![4]), None);
    assert_eq!(acc.len(), 1);
}

#[test]
fn accumulator_seal_by_force() {
    let mut acc = Accumulator::new(3).unwrap();
    assert_eq!(acc.seal(), None);
    acc.push(vec![9, 9]);
    assert_eq!(acc.seal(), Some(vec![vec![9, 9]]));
    assert!(acc.is_empty());
    assert_eq!(acc.seal(), None);
}

#[test]
fn queue_is_first_in_first_out() {
    let mut queue = BatchQueue::new();
    assert!(queue.is_empty());
    assert_eq!(queue.dequeue(), None);
    assert_eq!(queue.front_len(), None);
    queue.enqueue(vec![vec![1], vec![2]]);
    queue.enqueue(vec![vec![3]]);
    assert_eq!(queue.len(), 2);
    assert_eq!(queue.front_len(), Some(2));
    assert_eq!(queue.dequeue(), Some(vec![vec![1], vec![2]]));
    assert_eq!(queue.front_len(), Some(1));
    assert_eq!(queue.dequeue(), Some(vec![vec![3]]));
    assert_eq!(queue.dequeue(), None);
    assert!(queue.is_empty());
}

#[test]
fn controller_hands_off_full_batch() {
    let mut controller = VideoBackendController::with_block_size(2).unwrap();
    assert_eq!(controller.write_frame(vec![1]), vec![]);
    assert_eq!(controller.pending_frames(), 1);
    assert_eq!(
        controller.write_frame(vec![2]),
        vec![
            Command::Enqueue(vec![vec![1], vec![2]]),
            Command::Send(FrameMessage::Frame)
        ]
    );
    assert_eq!(controller.pending_frames(), 0);
    assert_eq!(controller.block_size(), 2);
}

#[test]
fn controller_refuses_zero_block_size() {
    assert!(VideoBackendController::with_block_size(0).is_none());
}

#[test]
fn controller_end_flushes_partial_batch() {
    let mut controller = VideoBackendController::with_block_size(240).unwrap();
    controller.write_frame(vec![5]);
    controller.write_frame(vec![6]);
    assert_eq!(
        controller.end(),
        vec![
            Command::Enqueue(vec![vec![5], vec![6]]),
            Command::Send(FrameMessage::Frame),
            Command::Send(FrameMessage::End),
            Command::Join
        ]
    );
}

#[test]
fn controller_end_with_empty_batch_only_ends() {
    let controller = VideoBackendController::new();
    assert_eq!(
        controller.end(),
        vec![Command::Send(FrameMessage::End), Command::Join]
    );
}

#[test]
fn worker_starts_running_and_polls() {
    let worker = Worker::new();
    assert_eq!(worker.phase(), WorkerPhase::Running);
    assert_eq!(worker.state(), VideoBackendState::Running);
    assert_eq!(worker.next_action(), WorkerAction::Dequeue);
}

#[test]
fn worker_sleeps_on_empty_queue_and_wakes() {
    let mut worker = Worker::new();
    worker.on_dequeued(None);
    assert_eq!(worker.phase(), WorkerPhase::Sleeping);
    assert_eq!(worker.state(), VideoBackendState::Sleeping);
    assert_eq!(worker.next_action(), WorkerAction::Receive);
    worker.on_received(Some(FrameMessage::Frame));
    assert_eq!(worker.phase(), WorkerPhase::Running);
    assert_eq!(worker.next_action(), WorkerAction::Dequeue);
}

#[test]
fn worker_writes_batch_in_order() {
    let mut worker = Worker::new();
    worker.on_dequeued(Some(vec![vec![1], vec![2], vec![3]]));
    for expected in 1..=3u8 {
        assert_eq!(worker.next_action(), WorkerAction::Write);
        assert_eq!(worker.current_frame(), &vec![expected]);
        worker.on_written(FrameDoneMessage::Done);
    }
    assert_eq!(worker.next_action(), WorkerAction::Dequeue);
    assert_eq!(worker.phase(), WorkerPhase::Running);
}

#[test]
fn worker_keeps_draining_after_failed_write() {
    let mut worker = Worker::new();
    worker.on_dequeued(Some(vec![vec![1], vec![2]]));
    assert_eq!(worker.current_frame(), &vec![1u8]);
    worker.on_written(FrameDoneMessage::Failed);
    assert_eq!(worker.phase(), WorkerPhase::Running);
    assert_eq!(worker.next_action(), WorkerAction::Write);
    assert_eq!(worker.current_frame(), &vec![2u8]);
    worker.on_written(FrameDoneMessage::Failed);
    assert_eq!(worker.next_action(), WorkerAction::Dequeue);
}

#[test]
fn worker_terminates_on_end() {
    let mut worker = Worker::new();
    worker.on_dequeued(None);
    worker.on_received(Some(FrameMessage::End));
    assert_eq!(worker.phase(), WorkerPhase::Terminated);
    assert_eq!(worker.next_action(), WorkerAction::Exit);
    assert_eq!(worker.state(), VideoBackendState::Sleeping);
}

#[test]
fn worker_terminates_when_sender_is_gone() {
    let mut worker = Worker::new();
    worker.on_dequeued(None);
    worker.on_received(None);
    assert_eq!(worker.phase(), WorkerPhase::Terminated);
    assert_eq!(worker.next_action(), WorkerAction::Exit);
}

#[test]
fn worker_takes_empty_batch_and_polls_again() {
    let mut worker = Worker::new();
    worker.on_dequeued(Some(vec![]));
    assert_eq!(worker.phase(), WorkerPhase::Running);
    assert_eq!(worker.next_action(), WorkerAction::Dequeue);
}

#[test]
fn components_deliver_in_order_when_driven_by_hand() {
    let mut controller = VideoBackendController::with_block_size(2).unwrap();
    let mut queue = BatchQueue::new();
    let mut channel = std::collections::VecDeque::new();
    let mut worker = Worker::new();
    let mut sink: Vec<Vec<u8>> = Vec::new();
    let mut commands = Vec::new();
    for tag in 0..5u8 {
        commands.extend(controller.write_frame(vec![tag]));
    }
    commands.extend(controller.end());
    for command in commands {
        match command {
            Command::Enqueue(batch) => queue.enqueue(batch),
            Command::Send(message) => channel.push_back(message),
            Command::Join => {}
        }
    }
    loop {
        match worker.next_action() {
            WorkerAction::Dequeue => worker.on_dequeued(queue.dequeue()),
            WorkerAction::Write => {
                sink.push(worker.current_frame().clone());
                worker.on_written(FrameDoneMessage::Done);
            }
            WorkerAction::Receive => worker.on_received(channel.pop_front()),
            WorkerAction::Exit => break,
        }
    }
    assert_eq!(sink, vec![vec![0u8], vec![1], vec![2], vec![3], vec![4]]);
    assert!(queue.is_empty());
}
