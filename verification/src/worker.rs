//! The worker: a state machine that drains the queue into the sink and sleeps
//! on the wake channel when the queue is empty.
//!
//! The worker itself touches neither the queue nor the channel nor the sink.
//! It says what to do next ([`Worker::next_action`]); whoever runs it does
//! that and reports what came of it to the matching `on_` method.

use vstd::prelude::*;
use crate::message::{FrameDoneMessage, FrameMessage, VideoBackendState};
use crate::model::{
    frames_of, lemma_frames_of_empty, lemma_frames_of_skip, optional_frames, Batch,
};

verus! {

/// Where the worker is in its life.
#[derive(Debug, Clone, Copy, PartialEq, Eq, Structural)]
pub enum WorkerPhase {
    /// Draining: it holds frames to write, or is about to look at the queue.
    Running,
    /// It found the queue empty and waits for a notification.
    Sleeping,
    /// It has left its loop for good.
    Terminated,
}

/// What the worker wants done next.
#[derive(Debug, Clone, Copy, PartialEq, Eq, Structural)]
pub enum WorkerAction {
    /// Take the oldest batch from the queue and report it to `on_dequeued`.
    Dequeue,
    /// Hand `current_frame` to the sink and report the outcome to
    /// `on_written`.
    Write,
    /// Block on the wake channel and report what arrived to `on_received`.
    Receive,
    /// Leave the loop.
    Exit,
}

/// The worker as a mathematical value: its phase and the frames of the batch
/// it took from the queue and has not written yet, oldest first.
pub struct WorkerModel {
    pub phase: WorkerPhase,
    pub in_hand: Batch,
}

impl WorkerModel {
    /// A worker at the start of its life.
    pub open spec fn start() -> WorkerModel {
        WorkerModel { phase: WorkerPhase::Running, in_hand: Seq::empty() }
    }

    /// Only a running worker holds frames.
    pub open spec fn wf(self) -> bool {
        self.phase != WorkerPhase::Running ==> self.in_hand.len() == 0
    }

    /// What the worker wants done next: write while it holds frames, look at
    /// the queue when it holds none, receive when asleep.
    pub open spec fn next_action(self) -> WorkerAction {
        match self.phase {
            WorkerPhase::Running => if self.in_hand.len() > 0 {
                WorkerAction::Write
            } else {
                WorkerAction::Dequeue
            },
            WorkerPhase::Sleeping => WorkerAction::Receive,
            WorkerPhase::Terminated => WorkerAction::Exit,
        }
    }

    /// After a look at the queue: with a batch the worker keeps running and
    /// holds its frames, with none it goes to sleep.
    pub open spec fn on_dequeued(self, batch: Option<Batch>) -> WorkerModel {
        match batch {
            Some(frames) => WorkerModel { phase: WorkerPhase::Running, in_hand: frames },
            None => WorkerModel { phase: WorkerPhase::Sleeping, in_hand: Seq::empty() },
        }
    }

    /// After a write, whatever the sink said of it: the frame is gone from
    /// the worker's hand.
    pub open spec fn on_written(self) -> WorkerModel {
        WorkerModel { phase: self.phase, in_hand: self.in_hand.drop_first() }
    }

    /// After the channel gave something: a wake sets the worker running, the
    /// end message or a channel without a sender terminates it.
    pub open spec fn on_received(self, message: Option<FrameMessage>) -> WorkerModel {
        match message {
            Some(FrameMessage::Frame) => WorkerModel {
                phase: WorkerPhase::Running,
                in_hand: self.in_hand,
            },
            _ => WorkerModel { phase: WorkerPhase::Terminated, in_hand: self.in_hand },
        }
    }
}

/// The worker's side of the pipeline.
pub struct Worker {
    phase: WorkerPhase,
    batch: Vec<Vec<u8>>,
    written: usize,
}

impl Worker {
    #[verifier::type_invariant]
    spec fn consistent(self) -> bool {
        &&& self.written <= self.batch@.len()
        &&& self.phase != WorkerPhase::Running ==> self.written == self.batch@.len()
    }

    /// The worker as a mathematical value.
    pub closed spec fn view(&self) -> WorkerModel {
        WorkerModel {
            phase: self.phase,
            in_hand: frames_of(self.batch@.skip(self.written as int)),
        }
    }

    /// A worker that starts out running, with nothing in hand.
    pub fn new() -> (worker: Self)
        ensures
            worker@ == WorkerModel::start(),
    {
        let worker = Worker { phase: WorkerPhase::Running, batch: Vec::new(), written: 0 };
        assert(worker@.in_hand =~= Seq::<Seq<u8>>::empty());
        worker
    }

    /// Where the worker is in its life.
    pub fn phase(&self) -> (phase: WorkerPhase)
        ensures
            phase == self@.phase,
            self@.wf(),
    {
        proof {
            use_type_invariant(self);
        }
        self.phase
    }

    /// The state to publish to other threads. A terminated worker was asleep
    /// when the end message reached it, and stays published as such.
    pub fn state(&self) -> (state: VideoBackendState)
        ensures
            state == if self@.phase == WorkerPhase::Running {
                VideoBackendState::Running
            } else {
                VideoBackendState::Sleeping
            },
    {
        match self.phase {
            WorkerPhase::Running => VideoBackendState::Running,
            _ => VideoBackendState::Sleeping,
        }
    }

    /// What has to be done next for this worker.
    pub fn next_action(&self) -> (action: WorkerAction)
        ensures
            action == self@.next_action(),
            self@.wf(),
    {
        proof {
            use_type_invariant(self);
        }
        match self.phase {
            WorkerPhase::Running => if self.written < self.batch.len() {
                WorkerAction::Write
            } else {
                WorkerAction::Dequeue
            },
            WorkerPhase::Sleeping => WorkerAction::Receive,
            WorkerPhase::Terminated => WorkerAction::Exit,
        }
    }

    /// The frame that the sink is to get next: the oldest in hand.
    pub fn current_frame(&self) -> (frame: &Vec<u8>)
        requires
            self@.next_action() == WorkerAction::Write,
        ensures
            frame@ == self@.in_hand[0],
    {
        proof {
            use_type_invariant(self);
        }
        &self.batch[self.written]
    }

    /// Takes what a look at the queue gave.
    pub fn on_dequeued(&mut self, batch: Option<Vec<Vec<u8>>>)
        requires
            old(self)@.next_action() == WorkerAction::Dequeue,
        ensures
            final(self)@ == old(self)@.on_dequeued(optional_frames(batch)),
    {
        proof {
            use_type_invariant(&*self);
            lemma_frames_of_empty();
        }
        match batch {
            Some(frames) => {
                assert(frames@.skip(0) =~= frames@);
                *self = Worker { phase: WorkerPhase::Running, batch: frames, written: 0 };
            },
            None => {
                assert(self.batch@.skip(self.written as int) =~= Seq::<Vec<u8>>::empty());
                *self = Worker { phase: WorkerPhase::Sleeping, batch: Vec::new(), written: 0 };
                assert(self.batch@.skip(0) =~= Seq::<Vec<u8>>::empty());
            },
        }
    }

    /// Takes the sink's word on the frame it was handed. A failure does not
    /// stop the worker: the frame counts as written either way.
    pub fn on_written(&mut self, outcome: FrameDoneMessage)
        requires
            old(self)@.next_action() == WorkerAction::Write,
        ensures
            final(self)@ == old(self)@.on_written(),
    {
        proof {
            use_type_invariant(&*self);
            assert(self@.in_hand.len() == self.batch@.len() - self.written);
            assert(self.written < self.batch.len());
            lemma_frames_of_skip(self.batch@, self.written as int);
            lemma_frames_of_skip(self.batch@, self.written as int + 1);
            assert(frames_of(self.batch@).skip(self.written as int).drop_first() =~= frames_of(
                self.batch@,
            ).skip(self.written as int + 1));
        }
        self.written = self.written + 1;
    }

    /// Takes what the wake channel gave; `None` stands for a channel whose
    /// sender is gone.
    pub fn on_received(&mut self, message: Option<FrameMessage>)
        requires
            old(self)@.next_action() == WorkerAction::Receive,
        ensures
            final(self)@ == old(self)@.on_received(message),
    {
        proof {
            use_type_invariant(&*self);
        }
        match message {
            Some(FrameMessage::Frame) => {
                self.phase = WorkerPhase::Running;
            },
            _ => {
                self.phase = WorkerPhase::Terminated;
            },
        }
    }
}

} // verus!
