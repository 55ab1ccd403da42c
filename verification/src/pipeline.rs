//! The whole pipeline on one thread, with the sink in memory.
//!
//! [`Pipeline`] holds a controller, a queue, a wake channel and a worker, and
//! takes the steps of [`crate::protocol`] one at a time, in whatever order its
//! caller asks for them. It is the pipeline without threads: what a session
//! with a background worker does in an order that the scheduler picks, this
//! does in an order that the caller picks.

use vstd::prelude::*;
use std::collections::VecDeque;
use crate::controller::{commands_of, Command, CommandModel, VideoBackendController};
use crate::laws::{law_shutdown_terminates, lemma_step_nearer_to_end};
use crate::message::{FrameDoneMessage, FrameMessage, VideoBackendState};
use crate::model::{frames_of, lemma_frames_of_empty, lemma_frames_of_push, FrameData};
use crate::protocol::{lemma_inv_start, lemma_inv_step, PipelineState, Step};
use crate::queue::BatchQueue;
use crate::worker::{Worker, WorkerAction, WorkerPhase};

verus! {

/// A pipeline whose producer and worker are stepped by hand.
pub struct Pipeline {
    controller: Option<VideoBackendController>,
    pending: Vec<Command>,
    queue: BatchQueue,
    channel: VecDeque<FrameMessage>,
    worker: Worker,
    joined: bool,
    written: Vec<Vec<u8>>,
    submitted: Ghost<Seq<FrameData>>,
    capacity: Ghost<nat>,
}

impl Pipeline {
    /// The state of the pipeline as the protocol sees it.
    pub closed spec fn view(&self) -> PipelineState {
        PipelineState {
            capacity: self.capacity@,
            open: match self.controller {
                Some(controller) => controller@,
                None => Seq::empty(),
            },
            closed: self.controller is None,
            pending: commands_of(self.pending@),
            queue: self.queue@,
            channel: self.channel@,
            worker: self.worker@,
            joined: self.joined,
            submitted: self.submitted@,
            written: frames_of(self.written@),
        }
    }

    /// The pipeline is in a state that a session can reach.
    pub closed spec fn wf(&self) -> bool {
        &&& self@.inv()
        &&& self.controller matches Some(controller) ==> controller.spec_block_size()
            == self.capacity@
    }

    /// What `wf` says of the state.
    pub proof fn lemma_wf(&self)
        requires
            self.wf(),
        ensures
            self@.inv(),
    {
    }

    /// A pipeline at the start of a session, with batches of `block_size`
    /// frames, or nothing where `block_size` is zero.
    pub fn new(block_size: usize) -> (made: Option<Self>)
        ensures
            made is Some <==> block_size > 0,
            made matches Some(pipeline) ==> pipeline.wf() && pipeline@ == PipelineState::start(
                block_size as nat,
            ),
    {
        match VideoBackendController::with_block_size(block_size) {
            None => None,
            Some(controller) => {
                let pipeline = Pipeline {
                    controller: Some(controller),
                    pending: Vec::new(),
                    queue: BatchQueue::new(),
                    channel: VecDeque::new(),
                    worker: Worker::new(),
                    joined: false,
                    written: Vec::new(),
                    submitted: Ghost(Seq::empty()),
                    capacity: Ghost(block_size as nat),
                };
                proof {
                    lemma_frames_of_empty();
                    lemma_inv_start(block_size as nat);
                    assert(pipeline@.pending =~= Seq::<CommandModel>::empty());
                    assert(pipeline@.channel =~= Seq::<FrameMessage>::empty());
                    assert(pipeline@ == PipelineState::start(block_size as nat));
                }
                Some(pipeline)
            },
        }
    }

    /// The producer submits `frame`. Where the producer cannot submit, because
    /// it still owes commands or has asked for shutdown, nothing changes and
    /// the frame comes back.
    pub fn submit(&mut self, frame: Vec<u8>) -> (refused: Option<Vec<u8>>)
        requires
            old(self).wf(),
        ensures
            final(self).wf(),
            refused is None <==> old(self)@.enabled(Step::Submit(frame@)),
            refused is None ==> final(self)@ == old(self)@.apply(Step::Submit(frame@)),
            refused matches Some(back) ==> back == frame && final(self)@ == old(self)@,
    {
        if self.pending.len() > 0 {
            return Some(frame);
        }
        assert(self@.pending.len() == 0);
        match &mut self.controller {
            None => Some(frame),
            Some(controller) => {
                let commands = controller.write_frame(frame);
                self.pending = commands;
                self.submitted = Ghost(self.submitted@.push(frame@));
                proof {
                    lemma_inv_step(old(self)@, Step::Submit(frame@));
                    assert(self@ == old(self)@.apply(Step::Submit(frame@)));
                }
                None
            },
        }
    }

    /// The producer asks for shutdown. Returns whether it could: it cannot
    /// while it owes commands, nor twice.
    pub fn shutdown(&mut self) -> (done: bool)
        requires
            old(self).wf(),
        ensures
            final(self).wf(),
            done == old(self)@.enabled(Step::Shutdown),
            done ==> final(self)@ == old(self)@.apply(Step::Shutdown),
            !done ==> final(self)@ == old(self)@,
    {
        if self.pending.len() > 0 {
            return false;
        }
        assert(self@.pending.len() == 0);
        match self.controller.take() {
            None => false,
            Some(controller) => {
                self.pending = controller.end();
                proof {
                    lemma_inv_step(old(self)@, Step::Shutdown);
                    assert(self@ == old(self)@.apply(Step::Shutdown));
                }
                true
            },
        }
    }

    /// The producer carries out the first command it owes. Returns whether
    /// it could: it cannot where it owes none, nor join a worker that has not
    /// terminated.
    pub fn perform(&mut self) -> (done: bool)
        requires
            old(self).wf(),
        ensures
            final(self).wf(),
            done == old(self)@.enabled(Step::Perform),
            done ==> final(self)@ == old(self)@.apply(Step::Perform),
            !done ==> final(self)@ == old(self)@,
    {
        if self.pending.len() == 0 {
            assert(self@.pending.len() == 0);
            return false;
        }
        assert(self@.pending[0] == self.pending@[0]@);
        let waits = match &self.pending[0] {
            Command::Join => match self.worker.phase() {
                WorkerPhase::Terminated => false,
                _ => true,
            },
            _ => false,
        };
        if waits {
            return false;
        }
        let command = self.pending.remove(0);
        proof {
            assert(commands_of(self.pending@) =~= old(self)@.pending.drop_first());
        }
        match command {
            Command::Enqueue(batch) => {
                self.queue.enqueue(batch);
            },
            Command::Send(message) => {
                self.channel.push_back(message);
            },
            Command::Join => {
                self.joined = true;
            },
        }
        proof {
            lemma_inv_step(old(self)@, Step::Perform);
            assert(self@ == old(self)@.apply(Step::Perform));
        }
        true
    }

    /// The worker does what it wants done next. Returns whether it could: it
    /// cannot receive from an empty channel, and does nothing once it has
    /// terminated. The sink takes every frame.
    pub fn work(&mut self) -> (done: bool)
        requires
            old(self).wf(),
        ensures
            final(self).wf(),
            done == old(self)@.enabled(Step::Work),
            done ==> final(self)@ == old(self)@.apply(Step::Work),
            !done ==> final(self)@ == old(self)@,
    {
        let done = match self.worker.next_action() {
            WorkerAction::Dequeue => {
                let batch = self.queue.dequeue();
                self.worker.on_dequeued(batch);
                true
            },
            WorkerAction::Write => {
                let frame = self.worker.current_frame().clone();
                proof {
                    assert(frame@ =~= self.worker@.in_hand[0]);
                    lemma_frames_of_push(self.written@, frame);
                }
                self.written.push(frame);
                self.worker.on_written(FrameDoneMessage::Done);
                true
            },
            WorkerAction::Receive => {
                match self.channel.pop_front() {
                    Some(message) => {
                        assert(self.channel@ =~= old(self)@.channel.drop_first());
                        self.worker.on_received(Some(message));
                        true
                    },
                    None => false,
                }
            },
            WorkerAction::Exit => false,
        };
        proof {
            if done {
                lemma_inv_step(old(self)@, Step::Work);
                assert(self@ == old(self)@.apply(Step::Work));
            }
        }
        done
    }

    /// Ends the session and returns what the sink was handed: every frame
    /// that was submitted, in the order of submission. The producer carries
    /// out what it owes, asks for shutdown if it has not yet, and then both
    /// sides run until the producer has joined the worker.
    pub fn finish(self) -> (log: Vec<Vec<u8>>)
        requires
            self.wf(),
        ensures
            frames_of(log@) == self@.submitted,
    {
        let mut pipeline = self;
        if !pipeline.is_closed() {
            while pipeline.owed_commands() > 0
                invariant
                    pipeline.wf(),
                    !pipeline@.closed,
                    pipeline@.submitted == self@.submitted,
                decreases pipeline@.pending.len(),
            {
                proof {
                    assert(!(pipeline@.pending[0] is Join));
                }
                let done = pipeline.perform();
                assert(done);
            }
            let done = pipeline.shutdown();
            assert(done);
        }
        while !pipeline.is_joined()
            invariant
                pipeline.wf(),
                pipeline@.closed,
                pipeline@.submitted == self@.submitted,
            decreases pipeline@.remaining(),
        {
            let ghost before = pipeline@;
            proof {
                law_shutdown_terminates(before, Seq::empty());
            }
            let performed = pipeline.perform();
            if !performed {
                let worked = pipeline.work();
                assert(worked);
                proof {
                    lemma_step_nearer_to_end(before, Step::Work);
                }
            } else {
                proof {
                    lemma_step_nearer_to_end(before, Step::Perform);
                }
            }
        }
        proof {
            let s = pipeline@;
            assert(s.worker.phase == WorkerPhase::Terminated);
            assert(s.queue.flatten() =~= Seq::<FrameData>::empty());
            assert(s.in_transit() =~= Seq::<FrameData>::empty());
            assert(s.written + s.outstanding() =~= s.written);
        }
        pipeline.written
    }

    /// What the sink has been handed so far, oldest first.
    pub fn written(&self) -> (log: &Vec<Vec<u8>>)
        ensures
            frames_of(log@) == self@.written,
    {
        &self.written
    }

    /// The number of frames in the open batch.
    pub fn open_frames(&self) -> (n: usize)
        ensures
            n == self@.open.len(),
    {
        match &self.controller {
            Some(controller) => controller.pending_frames(),
            None => 0,
        }
    }

    /// The number of commands that the producer owes.
    pub fn owed_commands(&self) -> (n: usize)
        ensures
            n == self@.pending.len(),
    {
        self.pending.len()
    }

    /// The number of sealed batches in the queue.
    pub fn queued_batches(&self) -> (n: usize)
        ensures
            n == self@.queue.len(),
    {
        self.queue.len()
    }

    /// The number of frames in the oldest batch of the queue, if there is
    /// one.
    pub fn oldest_batch_len(&self) -> (n: Option<usize>)
        ensures
            n is Some <==> self@.queue.len() > 0,
            n matches Some(len) ==> len == self@.queue[0].len(),
    {
        self.queue.front_len()
    }

    /// The number of messages that wait in the wake channel.
    pub fn waiting_messages(&self) -> (n: usize)
        ensures
            n == self@.channel.len(),
    {
        self.channel.len()
    }

    /// Where the worker is in its life.
    pub fn worker_phase(&self) -> (phase: WorkerPhase)
        ensures
            phase == self@.worker.phase,
    {
        self.worker.phase()
    }

    /// The worker's state as another thread would observe it.
    pub fn worker_state(&self) -> (state: VideoBackendState)
        ensures
            state == if self@.worker.phase == WorkerPhase::Running {
                VideoBackendState::Running
            } else {
                VideoBackendState::Sleeping
            },
    {
        self.worker.state()
    }

    /// Whether shutdown has been asked for.
    pub fn is_closed(&self) -> (closed: bool)
        ensures
            closed == self@.closed,
    {
        self.controller.is_none()
    }

    /// Whether the producer has joined the worker: the session is over.
    pub fn is_joined(&self) -> (joined: bool)
        ensures
            joined == self@.joined,
    {
        self.joined
    }
}

} // verus!
