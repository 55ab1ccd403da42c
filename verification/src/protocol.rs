//! The pipeline as a whole: producer, queue, wake channel, worker and sink
//! together, as a transition system.
//!
//! A state holds everything that the two threads hold between them. A step is
//! one thing that one of them does alone and at once: the producer submits a
//! frame or asks for shutdown, the producer carries out the next command it
//! owes, the worker does what its state machine wants next. The threads run
//! side by side, so the steps of a run may come in any order that leaves each
//! of them possible when it is taken. What is proved here holds of all such
//! runs.

use vstd::prelude::*;
use crate::controller::{spec_handoff, spec_shutdown, spec_submit, CommandModel};
use crate::message::FrameMessage;
use crate::model::{Batch, FrameData};
use crate::worker::{WorkerAction, WorkerModel, WorkerPhase};

verus! {

/// Everything that the producer and the worker hold between them.
pub struct PipelineState {
    /// The number of frames at which the open batch is sealed.
    pub capacity: nat,
    /// The open batch, in the producer's hands.
    pub open: Batch,
    /// Shutdown has been asked for.
    pub closed: bool,
    /// The commands that the producer still has to carry out, next first.
    pub pending: Seq<CommandModel>,
    /// The shared queue of sealed batches, oldest first.
    pub queue: Seq<Batch>,
    /// The wake channel: messages sent and not yet received, oldest first.
    pub channel: Seq<FrameMessage>,
    pub worker: WorkerModel,
    /// The producer has seen the worker leave its loop.
    pub joined: bool,
    /// Every frame that was ever submitted, in the order of submission.
    pub submitted: Seq<FrameData>,
    /// Every frame that was ever handed to the sink, in the order of writing.
    pub written: Seq<FrameData>,
}

/// One thing that one of the two threads does alone.
pub enum Step {
    /// The producer submits a frame.
    Submit(FrameData),
    /// The producer asks for shutdown.
    Shutdown,
    /// The producer carries out the first command it owes.
    Perform,
    /// The worker does what it wants done next.
    Work,
}

/// The two commands that end a session.
pub open spec fn closing(closed: bool) -> Seq<CommandModel> {
    if closed {
        seq![CommandModel::Send(FrameMessage::End), CommandModel::Join]
    } else {
        Seq::empty()
    }
}

impl PipelineState {
    /// The state in which a session starts.
    pub open spec fn start(capacity: nat) -> PipelineState {
        PipelineState {
            capacity,
            open: Seq::empty(),
            closed: false,
            pending: Seq::empty(),
            queue: Seq::empty(),
            channel: Seq::empty(),
            worker: WorkerModel::start(),
            joined: false,
            submitted: Seq::empty(),
            written: Seq::empty(),
        }
    }

    /// Whether `step` can be taken in this state. The producer calls the
    /// controller only when it has carried out what the last call asked for,
    /// and never after shutdown; it can join only a worker that has
    /// terminated; the worker can receive only what is in the channel.
    pub open spec fn enabled(self, step: Step) -> bool {
        match step {
            Step::Submit(_) => !self.closed && self.pending.len() == 0,
            Step::Shutdown => !self.closed && self.pending.len() == 0,
            Step::Perform => self.pending.len() > 0 && (self.pending[0] is Join
                ==> self.worker.phase == WorkerPhase::Terminated),
            Step::Work => match self.worker.next_action() {
                WorkerAction::Dequeue => true,
                WorkerAction::Write => true,
                WorkerAction::Receive => self.channel.len() > 0,
                WorkerAction::Exit => false,
            },
        }
    }

    /// The state after `step`.
    pub open spec fn apply(self, step: Step) -> PipelineState {
        match step {
            Step::Submit(frame) => {
                let (open, commands) = spec_submit(self.capacity, self.open, frame);
                PipelineState {
                    open,
                    pending: commands,
                    submitted: self.submitted.push(frame),
                    ..self
                }
            },
            Step::Shutdown => PipelineState {
                open: Seq::empty(),
                closed: true,
                pending: spec_shutdown(self.open),
                ..self
            },
            Step::Perform => self.perform(),
            Step::Work => self.work(),
        }
    }

    /// The producer carries out the first command it owes.
    pub open spec fn perform(self) -> PipelineState {
        let rest = self.pending.drop_first();
        match self.pending[0] {
            CommandModel::Enqueue(batch) => PipelineState {
                pending: rest,
                queue: self.queue.push(batch),
                ..self
            },
            CommandModel::Send(message) => PipelineState {
                pending: rest,
                channel: self.channel.push(message),
                ..self
            },
            CommandModel::Join => PipelineState { pending: rest, joined: true, ..self },
        }
    }

    /// The worker does what it wants done next.
    pub open spec fn work(self) -> PipelineState {
        match self.worker.next_action() {
            WorkerAction::Dequeue => if self.queue.len() > 0 {
                PipelineState {
                    queue: self.queue.drop_first(),
                    worker: self.worker.on_dequeued(Some(self.queue[0])),
                    ..self
                }
            } else {
                PipelineState { worker: self.worker.on_dequeued(None), ..self }
            },
            WorkerAction::Write => PipelineState {
                written: self.written.push(self.worker.in_hand[0]),
                worker: self.worker.on_written(),
                ..self
            },
            WorkerAction::Receive => PipelineState {
                channel: self.channel.drop_first(),
                worker: self.worker.on_received(Some(self.channel[0])),
                ..self
            },
            WorkerAction::Exit => self,
        }
    }

    /// The state after the steps of `steps`, taken in order.
    pub open spec fn run(self, steps: Seq<Step>) -> PipelineState
        decreases steps.len(),
    {
        if steps.len() == 0 {
            self
        } else {
            self.run(steps.drop_last()).apply(steps.last())
        }
    }

    /// Whether each step of `steps` can be taken when its turn comes.
    pub open spec fn admits(self, steps: Seq<Step>) -> bool
        decreases steps.len(),
    {
        steps.len() == 0 || (self.admits(steps.drop_last()) && self.run(
            steps.drop_last(),
        ).enabled(steps.last()))
    }

    /// The frames of the sealed batch that the producer holds and has not
    /// appended to the queue yet.
    pub open spec fn in_transit(self) -> Batch {
        if self.pending.len() > 0 && self.pending[0] is Enqueue {
            self.pending[0]->Enqueue_0
        } else {
            Seq::empty()
        }
    }

    /// The frames that were submitted and not written yet, in the order in
    /// which the sink will get them: those in the worker's hand, then the
    /// queue, then the batch on its way to the queue, then the open batch.
    pub open spec fn outstanding(self) -> Seq<FrameData> {
        self.worker.in_hand + self.queue.flatten() + self.in_transit() + self.open
    }

    /// The producer owes the worker a wake.
    pub open spec fn wake_owed(self) -> bool {
        self.pending.len() > 0 && (self.pending[0] is Enqueue || self.pending[0]
            == CommandModel::Send(FrameMessage::Frame))
    }

    /// The end message is out: shutdown was asked for and all but the join
    /// has been carried out.
    pub open spec fn end_sent(self) -> bool {
        self.closed && self.pending.len() <= 1
    }

    /// The commands that the producer owes are what is left of one call.
    pub open spec fn pending_wf(self) -> bool {
        ||| self.pending.len() > 0 && self.pending[0] is Enqueue && self.pending == spec_handoff(
            Some(self.in_transit()),
        ) + closing(self.closed)
        ||| self.pending == seq![CommandModel::Send(FrameMessage::Frame)] + closing(self.closed)
        ||| self.pending == closing(self.closed)
        ||| self.closed && self.pending == seq![CommandModel::Join]
        ||| self.closed && self.pending.len() == 0
    }

    /// The channel holds wakes, and behind them the end message from the
    /// moment it is sent to the moment the worker receives it.
    pub open spec fn channel_wf(self) -> bool {
        &&& forall|i: int|
            0 <= i < self.channel.len() - 1 ==> #[trigger] self.channel[i] == FrameMessage::Frame
        &&& if self.end_sent() && self.worker.phase != WorkerPhase::Terminated {
            self.channel.len() > 0 && self.channel.last() == FrameMessage::End
        } else {
            self.channel.len() > 0 ==> self.channel.last() == FrameMessage::Frame
        }
    }

    /// No wake is ever lost: while a batch waits in the queue the worker is
    /// running, or a wake waits in the channel, or the producer is about to
    /// send one.
    pub open spec fn wake_covers_queue(self) -> bool {
        self.queue.len() > 0 ==> {
            ||| self.worker.phase == WorkerPhase::Running
            ||| self.channel.len() > 0 && self.channel[0] == FrameMessage::Frame
            ||| self.wake_owed()
        }
    }

    /// A sealed batch is never empty and never over capacity, and before
    /// shutdown every sealed batch is full.
    pub open spec fn sealed(self, batch: Batch) -> bool {
        &&& 0 < batch.len() <= self.capacity
        &&& !self.closed ==> batch.len() == self.capacity
    }

    /// Every batch in the queue, and the one on its way there, is sealed.
    pub open spec fn batches_sealed(self) -> bool {
        &&& forall|i: int| 0 <= i < self.queue.len() ==> self.sealed(#[trigger] self.queue[i])
        &&& self.pending.len() > 0 && self.pending[0] is Enqueue ==> self.sealed(self.in_transit())
    }

    /// What holds in every state that a session can reach.
    pub open spec fn inv(self) -> bool {
        &&& self.open.len() < self.capacity
        &&& self.batches_sealed()
        &&& self.closed ==> self.open.len() == 0
        &&& self.worker.wf()
        &&& self.pending_wf()
        &&& self.channel_wf()
        &&& self.wake_covers_queue()
        &&& self.worker.phase == WorkerPhase::Terminated ==> self.end_sent() && self.channel.len()
            == 0 && self.queue.len() == 0
        &&& self.joined <==> self.closed && self.pending.len() == 0
        &&& self.joined ==> self.worker.phase == WorkerPhase::Terminated
        &&& self.written + self.outstanding() == self.submitted
    }

    /// A bound on the number of steps that can still be taken once shutdown
    /// has been asked for.
    pub open spec fn remaining(self) -> nat {
        self.owed() + 2 * self.channel.len() + self.queue.flatten().len() + self.queue.len()
            + self.worker.in_hand.len() + if self.worker.phase == WorkerPhase::Running {
            1nat
        } else {
            0nat
        }
    }

    /// The part of `remaining` that the producer's commands account for.
    pub open spec fn owed(self) -> nat {
        3 * self.pending.len() + self.in_transit().len()
    }
}

/// The first batch of a queue is the first part of its frames.
pub proof fn lemma_flatten_drop_first(queue: Seq<Batch>)
    requires
        queue.len() > 0,
    ensures
        queue.flatten() == queue[0] + queue.drop_first().flatten(),
{
}

/// A session starts in a state in which the invariant holds.
pub proof fn lemma_inv_start(capacity: nat)
    requires
        capacity > 0,
    ensures
        PipelineState::start(capacity).inv(),
{
    let s = PipelineState::start(capacity);
    assert(s.pending == closing(false));
    assert(s.queue.flatten() =~= Seq::<FrameData>::empty());
    assert(s.written + s.outstanding() =~= s.submitted);
}

proof fn lemma_inv_submit(s: PipelineState, frame: FrameData)
    requires
        s.inv(),
        s.enabled(Step::Submit(frame)),
    ensures
        s.apply(Step::Submit(frame)).inv(),
{
    let t = s.apply(Step::Submit(frame));
    if s.open.len() + 1 >= s.capacity {
        let batch = s.open.push(frame);
        assert(t.pending == spec_handoff(Some(batch)));
        assert(t.pending[0] == CommandModel::Enqueue(batch));
        assert(t.in_transit() == batch);
        assert(t.pending =~= spec_handoff(Some(t.in_transit())) + closing(false));
        assert(t.written + t.outstanding() =~= t.submitted) by {
            assert(s.in_transit() =~= Seq::<FrameData>::empty());
            assert(s.written + s.outstanding() == s.submitted);
            assert(t.outstanding() =~= s.outstanding().push(frame));
        }
    } else {
        assert(t.pending == closing(false));
        assert(t.in_transit() =~= Seq::<FrameData>::empty());
        assert(t.written + t.outstanding() =~= t.submitted) by {
            assert(s.written + s.outstanding() == s.submitted);
            assert(t.outstanding() =~= s.outstanding().push(frame));
        }
    }
}

proof fn lemma_inv_shutdown(s: PipelineState)
    requires
        s.inv(),
        s.enabled(Step::Shutdown),
    ensures
        s.apply(Step::Shutdown).inv(),
{
    let t = s.apply(Step::Shutdown);
    assert(s.in_transit() =~= Seq::<FrameData>::empty());
    if s.open.len() > 0 {
        assert(t.pending[0] == CommandModel::Enqueue(s.open));
        assert(t.in_transit() == s.open);
        assert(t.pending =~= spec_handoff(Some(t.in_transit())) + closing(true));
        assert(t.pending.len() == 4);
    } else {
        assert(t.pending =~= closing(true));
        assert(t.pending.len() == 2);
        assert(t.in_transit() =~= Seq::<FrameData>::empty());
    }
    assert(t.outstanding() =~= s.outstanding());
}

proof fn lemma_inv_perform(s: PipelineState)
    requires
        s.inv(),
        s.enabled(Step::Perform),
    ensures
        s.apply(Step::Perform).inv(),
{
    let t = s.apply(Step::Perform);
    let tail = closing(s.closed);
    match s.pending[0] {
        CommandModel::Enqueue(batch) => {
            assert(s.pending == spec_handoff(Some(batch)) + tail);
            assert(t.pending =~= seq![CommandModel::Send(FrameMessage::Frame)] + tail);
            assert(t.in_transit() =~= Seq::<FrameData>::empty());
            s.queue.lemma_flatten_push(batch);
            assert(t.outstanding() =~= s.outstanding());
            assert(t.wake_owed());
        },
        CommandModel::Send(FrameMessage::Frame) => {
            assert(s.pending == seq![CommandModel::Send(FrameMessage::Frame)] + tail);
            assert(t.pending =~= tail);
            assert(t.in_transit() =~= Seq::<FrameData>::empty());
            assert(s.in_transit() =~= Seq::<FrameData>::empty());
            assert(t.outstanding() =~= s.outstanding());
            assert(!s.end_sent());
            assert(t.channel[0] == FrameMessage::Frame);
        },
        CommandModel::Send(FrameMessage::End) => {
            assert(s.closed);
            assert(s.pending == tail);
            assert(t.pending =~= seq![CommandModel::Join]);
            assert(t.in_transit() =~= Seq::<FrameData>::empty());
            assert(s.in_transit() =~= Seq::<FrameData>::empty());
            assert(t.outstanding() =~= s.outstanding());
            assert(s.channel.len() > 0 ==> t.channel[0] == s.channel[0]);
        },
        CommandModel::Join => {
            assert(s.pending == seq![CommandModel::Join]);
            assert(t.pending =~= Seq::<CommandModel>::empty());
            assert(t.in_transit() =~= Seq::<FrameData>::empty());
            assert(s.in_transit() =~= Seq::<FrameData>::empty());
            assert(t.outstanding() =~= s.outstanding());
        },
    }
}

proof fn lemma_inv_work(s: PipelineState)
    requires
        s.inv(),
        s.enabled(Step::Work),
    ensures
        s.apply(Step::Work).inv(),
{
    let t = s.apply(Step::Work);
    assert(t.in_transit() == s.in_transit());
    match s.worker.next_action() {
        WorkerAction::Dequeue => {
            if s.queue.len() > 0 {
                lemma_flatten_drop_first(s.queue);
                assert(t.outstanding() =~= s.outstanding());
            } else {
                assert(t.outstanding() =~= s.outstanding());
            }
        },
        WorkerAction::Write => {
            assert(t.written + t.outstanding() =~= s.written + s.outstanding());
        },
        WorkerAction::Receive => {
            assert(t.outstanding() =~= s.outstanding());
            if s.channel[0] == FrameMessage::End {
                assert(s.channel.len() == 1);
                assert(s.end_sent());
                assert(!s.wake_owed());
            } else {
                assert(t.channel.len() > 0 ==> t.channel.last() == s.channel.last());
            }
        },
        WorkerAction::Exit => {},
    }
}

/// Every step that can be taken keeps the invariant.
pub proof fn lemma_inv_step(s: PipelineState, step: Step)
    requires
        s.inv(),
        s.enabled(step),
    ensures
        s.apply(step).inv(),
{
    match step {
        Step::Submit(frame) => lemma_inv_submit(s, frame),
        Step::Shutdown => lemma_inv_shutdown(s),
        Step::Perform => lemma_inv_perform(s),
        Step::Work => lemma_inv_work(s),
    }
}

/// Every run keeps the invariant.
pub proof fn lemma_inv_run(s: PipelineState, steps: Seq<Step>)
    requires
        s.inv(),
        s.admits(steps),
    ensures
        s.run(steps).inv(),
    decreases steps.len(),
{
    if steps.len() > 0 {
        lemma_inv_run(s, steps.drop_last());
        lemma_inv_step(s.run(steps.drop_last()), steps.last());
    }
}

} // verus!
