//! What holds of every run of the pipeline, whatever the order in which the
//! producer and the worker take their steps.

use vstd::prelude::*;
use crate::controller::CommandModel;
use crate::message::FrameMessage;
use crate::model::{Batch, FrameData};
use crate::protocol::{
    lemma_flatten_drop_first, lemma_inv_run, lemma_inv_start, lemma_inv_step, PipelineState, Step,
};
use crate::worker::{WorkerAction, WorkerPhase};

verus! {

/// `count` steps of the worker, with nothing else in between.
pub open spec fn worker_alone(count: nat) -> Seq<Step> {
    Seq::new(count, |i: int| Step::Work)
}

/// Whether every step of `steps` is a step of the producer.
pub open spec fn producer_alone(steps: Seq<Step>) -> bool {
    forall|i: int| 0 <= i < steps.len() ==> !(#[trigger] steps[i] is Work)
}

/// Taking the steps of `first` and then those of `second` is taking those of
/// both in a row.
pub proof fn lemma_run_concat(s: PipelineState, first: Seq<Step>, second: Seq<Step>)
    ensures
        s.run(first + second) == s.run(first).run(second),
        s.admits(first + second) == (s.admits(first) && s.run(first).admits(second)),
    decreases second.len(),
{
    if second.len() == 0 {
        assert(first + second =~= first);
    } else {
        lemma_run_concat(s, first, second.drop_last());
        assert((first + second).drop_last() =~= first + second.drop_last());
        assert((first + second).last() == second.last());
    }
}

/// Taking one step and then the steps of `rest` is taking them all in a row.
pub proof fn lemma_run_first(s: PipelineState, step: Step, rest: Seq<Step>)
    ensures
        s.run(seq![step] + rest) == s.apply(step).run(rest),
        s.admits(seq![step] + rest) == (s.enabled(step) && s.apply(step).admits(rest)),
{
    lemma_run_concat(s, seq![step], rest);
    let one = seq![step];
    assert(one.drop_last() =~= Seq::<Step>::empty());
    assert(one.last() == step);
    assert(s.run(one.drop_last()) == s);
    assert(s.run(one) == s.apply(step));
    assert(s.admits(one.drop_last()));
    assert(s.admits(one) == s.enabled(step));
}

/// The batch size is fixed for the lifetime of a session, and shutdown, once
/// asked for, is never taken back.
pub proof fn law_capacity_fixed(s: PipelineState, steps: Seq<Step>)
    ensures
        s.run(steps).capacity == s.capacity,
        s.closed ==> s.run(steps).closed,
    decreases steps.len(),
{
    if steps.len() > 0 {
        law_capacity_fixed(s, steps.drop_last());
    }
}

/// The sink sees frames in the order of submission. At every moment of every
/// session the frames that the sink has been handed are the first of the
/// frames that were submitted, in that order, also where they came through
/// several batches.
pub proof fn law_order_preserved(capacity: nat, steps: Seq<Step>)
    requires
        capacity > 0,
        PipelineState::start(capacity).admits(steps),
    ensures
        ({
            let s = PipelineState::start(capacity).run(steps);
            &&& s.written.is_prefix_of(s.submitted)
            &&& forall|i: int| 0 <= i < s.written.len() ==> s.written[i] == s.submitted[i]
        }),
{
    lemma_inv_start(capacity);
    lemma_inv_run(PipelineState::start(capacity), steps);
    let s = PipelineState::start(capacity).run(steps);
    assert(s.written + s.outstanding() == s.submitted);
}

/// No frame is handed to the sink twice, and none is lost on the way. At every
/// moment of every session each submitted frame is in exactly one place: the
/// frames written, followed by those in the worker's hand, in the queue, on
/// their way to the queue and in the open batch, are the frames submitted,
/// each once and in order. The number of writes never exceeds the number of
/// submissions.
pub proof fn law_each_frame_once(capacity: nat, steps: Seq<Step>)
    requires
        capacity > 0,
        PipelineState::start(capacity).admits(steps),
    ensures
        ({
            let s = PipelineState::start(capacity).run(steps);
            &&& s.submitted == s.written + s.worker.in_hand + s.queue.flatten() + s.in_transit()
                + s.open
            &&& s.written.len() <= s.submitted.len()
            &&& s.worker.phase == WorkerPhase::Terminated ==> s.written == s.submitted
        }),
{
    lemma_inv_start(capacity);
    lemma_inv_run(PipelineState::start(capacity), steps);
    let s = PipelineState::start(capacity).run(steps);
    assert(s.written + s.outstanding() == s.submitted);
    assert(s.written + s.outstanding() =~= s.written + s.worker.in_hand + s.queue.flatten()
        + s.in_transit() + s.open);
    if s.worker.phase == WorkerPhase::Terminated {
        lemma_drained(s);
    }
}

/// In a state with a terminated worker nothing is outstanding.
proof fn lemma_drained(s: PipelineState)
    requires
        s.inv(),
        s.worker.phase == WorkerPhase::Terminated,
    ensures
        s.outstanding() == Seq::<FrameData>::empty(),
        s.written == s.submitted,
{
    assert(s.queue.flatten() =~= Seq::<FrameData>::empty());
    assert(s.in_transit() =~= Seq::<FrameData>::empty());
    assert(s.outstanding() =~= Seq::<FrameData>::empty());
    assert(s.written + s.outstanding() =~= s.written);
}

/// Shutdown leaves no frame behind. Once the worker has terminated, and so
/// once shutdown has returned, the sink has been handed every frame that was
/// submitted, whether or not their number is a multiple of the batch size.
pub proof fn law_nothing_lost_on_shutdown(capacity: nat, steps: Seq<Step>)
    requires
        capacity > 0,
        PipelineState::start(capacity).admits(steps),
    ensures
        ({
            let s = PipelineState::start(capacity).run(steps);
            &&& s.worker.phase == WorkerPhase::Terminated ==> s.closed && s.written == s.submitted
            &&& s.joined ==> s.worker.phase == WorkerPhase::Terminated
        }),
{
    lemma_inv_start(capacity);
    lemma_inv_run(PipelineState::start(capacity), steps);
    let s = PipelineState::start(capacity).run(steps);
    if s.worker.phase == WorkerPhase::Terminated {
        lemma_drained(s);
    }
}

/// Before shutdown and without the worker, every batch in the queue is full
/// and the producer's frames are all still there.
proof fn lemma_producer_alone(capacity: nat, steps: Seq<Step>)
    requires
        capacity > 0,
        PipelineState::start(capacity).admits(steps),
        producer_alone(steps),
    ensures
        ({
            let s = PipelineState::start(capacity).run(steps);
            &&& s.inv()
            &&& s.capacity == capacity
            &&& s.written.len() == 0
            &&& s.worker.in_hand.len() == 0
            &&& !s.closed ==> s.queue.flatten().len() == s.queue.len() * capacity
        }),
    decreases steps.len(),
{
    let start = PipelineState::start(capacity);
    lemma_inv_start(capacity);
    lemma_inv_run(start, steps);
    if steps.len() == 0 {
        assert(start.queue.flatten() =~= Seq::<FrameData>::empty());
    } else {
        let before = steps.drop_last();
        assert forall|i: int| 0 <= i < before.len() implies !(#[trigger] before[i] is Work) by {
            assert(before[i] == steps[i]);
        }
        lemma_producer_alone(capacity, before);
        let s = start.run(before);
        let t = start.run(steps);
        assert(!(steps[steps.len() - 1] is Work));
        assert(t == s.apply(steps.last()));
        if !t.closed {
            match steps.last() {
                Step::Perform => {
                    match s.pending[0] {
                        CommandModel::Enqueue(batch) => {
                            s.queue.lemma_flatten_push(batch);
                            assert(batch == s.in_transit());
                            assert(s.sealed(batch));
                            assert((s.queue.len() + 1) * capacity == s.queue.len() * capacity
                                + capacity) by (nonlinear_arith);
                        },
                        _ => {},
                    }
                },
                _ => {},
            }
        }
    }
}

/// A batch is sealed exactly when it is full. After exactly as many frames as
/// a batch holds have been submitted and handed off, and before the worker has
/// taken a step, the queue holds exactly one sealed batch, which is those
/// frames, and the open batch is empty.
pub proof fn law_batch_sealing(capacity: nat, steps: Seq<Step>)
    requires
        capacity > 0,
        PipelineState::start(capacity).admits(steps),
        producer_alone(steps),
        !PipelineState::start(capacity).run(steps).closed,
        PipelineState::start(capacity).run(steps).pending.len() == 0,
        PipelineState::start(capacity).run(steps).submitted.len() == capacity,
    ensures
        ({
            let s = PipelineState::start(capacity).run(steps);
            &&& s.queue == seq![s.submitted]
            &&& s.queue[0].len() == capacity
            &&& s.open.len() == 0
        }),
{
    lemma_producer_alone(capacity, steps);
    let s = PipelineState::start(capacity).run(steps);
    assert(s.in_transit() =~= Seq::<FrameData>::empty());
    assert(s.written + s.outstanding() == s.submitted);
    assert(s.outstanding().len() == s.queue.flatten().len() + s.open.len());
    let n = s.queue.len();
    assert(n * capacity + s.open.len() == capacity);
    assert(n == 1 && s.open.len() == 0) by (nonlinear_arith)
        requires
            n * capacity + s.open.len() == capacity,
            s.open.len() < capacity,
            capacity > 0,
    ;
    lemma_flatten_drop_first(s.queue);
    assert(s.queue.drop_first().flatten() =~= Seq::<FrameData>::empty());
    assert(s.queue[0] =~= s.submitted);
    assert(s.queue =~= seq![s.submitted]);
}

/// A running worker that takes as many steps as it has frames in hand writes
/// those frames, in order, and is then ready to look at the queue again.
pub proof fn lemma_worker_writes_batch(s: PipelineState)
    requires
        s.worker.phase == WorkerPhase::Running,
    ensures
        s.admits(worker_alone(s.worker.in_hand.len())),
        ({
            let t = s.run(worker_alone(s.worker.in_hand.len()));
            &&& t.written == s.written + s.worker.in_hand
            &&& t.worker.phase == WorkerPhase::Running
            &&& t.worker.in_hand.len() == 0
            &&& t.queue == s.queue
            &&& t.channel == s.channel
            &&& t.pending == s.pending
            &&& t.open == s.open
            &&& t.closed == s.closed
            &&& t.joined == s.joined
            &&& t.submitted == s.submitted
            &&& t.capacity == s.capacity
        }),
    decreases s.worker.in_hand.len(),
{
    let count = s.worker.in_hand.len();
    if count == 0 {
        assert(worker_alone(0) =~= Seq::<Step>::empty());
        assert(s.written + s.worker.in_hand =~= s.written);
    } else {
        let next = s.apply(Step::Work);
        assert(s.worker.next_action() == WorkerAction::Write);
        assert(next.worker.in_hand.len() == count - 1);
        lemma_worker_writes_batch(next);
        let rest = worker_alone((count - 1) as nat);
        assert(worker_alone(count) =~= seq![Step::Work] + rest);
        lemma_run_first(s, Step::Work, rest);
        assert(next.written + next.worker.in_hand =~= s.written + s.worker.in_hand);
    }
}

/// A sleeping worker is woken by the batch it sleeps for. Where the worker
/// sleeps on an empty queue and a submitted frame seals a batch, handing that
/// batch off wakes the worker, and the worker alone, with no further step of
/// the producer, receives the wake, takes the batch from the queue and writes
/// all its frames.
pub proof fn law_sealing_submit_wakes_sleeper(s: PipelineState, frame: FrameData)
    requires
        s.inv(),
        s.worker.phase == WorkerPhase::Sleeping,
        s.queue.len() == 0,
        s.enabled(Step::Submit(frame)),
        s.open.len() + 1 == s.capacity,
    ensures
        ({
            let batch = s.open.push(frame);
            let handoff = seq![Step::Submit(frame), Step::Perform, Step::Perform];
            let drain = worker_alone(s.capacity + 2);
            let woken = s.run(handoff);
            let done = woken.run(drain);
            &&& s.admits(handoff)
            &&& woken.queue == seq![batch]
            &&& woken.worker.phase == WorkerPhase::Sleeping
            &&& woken.admits(drain)
            &&& done.written == s.written + batch
            &&& done.queue.len() == 0
            &&& done.worker.phase == WorkerPhase::Running
        }),
{
    let batch = s.open.push(frame);
    let s1 = s.apply(Step::Submit(frame));
    lemma_inv_step(s, Step::Submit(frame));
    assert(s1.pending[0] == CommandModel::Enqueue(batch));
    let s2 = s1.apply(Step::Perform);
    lemma_inv_step(s1, Step::Perform);
    assert(s2.pending[0] == CommandModel::Send(FrameMessage::Frame));
    assert(s2.queue =~= seq![batch]);
    let woken = s2.apply(Step::Perform);
    lemma_inv_step(s2, Step::Perform);
    let handoff = seq![Step::Submit(frame), Step::Perform, Step::Perform];
    assert(handoff =~= seq![Step::Submit(frame)] + (seq![Step::Perform] + (seq![Step::Perform]
        + Seq::<Step>::empty())));
    lemma_run_first(s, Step::Submit(frame), seq![Step::Perform] + (seq![Step::Perform]
        + Seq::<Step>::empty()));
    lemma_run_first(s1, Step::Perform, seq![Step::Perform] + Seq::<Step>::empty());
    lemma_run_first(s2, Step::Perform, Seq::<Step>::empty());
    assert(s.run(handoff) == woken);

    // The channel holds wakes only: the worker sleeps and the end message is not out.
    assert(woken.channel.len() > 0);
    assert(woken.channel[0] == FrameMessage::Frame) by {
        if s.channel.len() > 0 {
            assert(woken.channel[0] == s.channel[0]);
            if s.channel.len() > 1 {
                assert(s.channel[0] == FrameMessage::Frame);
            } else {
                assert(s.channel.last() == s.channel[0]);
            }
        }
    }
    let w1 = woken.apply(Step::Work);
    assert(w1.worker.phase == WorkerPhase::Running);
    assert(w1.worker.in_hand.len() == 0);
    let w2 = w1.apply(Step::Work);
    assert(w2.worker.in_hand == batch);
    assert(w2.queue =~= Seq::<Batch>::empty());
    lemma_worker_writes_batch(w2);
    let writes = worker_alone(s.capacity);
    let drain = worker_alone(s.capacity + 2);
    assert(drain =~= seq![Step::Work] + (seq![Step::Work] + writes));
    lemma_run_first(woken, Step::Work, seq![Step::Work] + writes);
    lemma_run_first(w1, Step::Work, writes);
}

/// Once shutdown has been asked for, every step that can be taken brings the
/// session nearer to its end.
pub proof fn lemma_step_nearer_to_end(s: PipelineState, step: Step)
    requires
        s.inv(),
        s.closed,
        s.enabled(step),
    ensures
        s.apply(step).closed,
        s.apply(step).remaining() < s.remaining(),
{
    let t = s.apply(step);
    match step {
        Step::Submit(_) => {},
        Step::Shutdown => {},
        Step::Perform => {
            match s.pending[0] {
                CommandModel::Enqueue(batch) => {
                    s.queue.lemma_flatten_push(batch);
                    assert(t.pending[0] == CommandModel::Send(FrameMessage::Frame));
                    assert(t.in_transit().len() == 0);
                },
                CommandModel::Send(_) => {
                    assert(s.in_transit().len() == 0);
                    assert(t.pending.len() > 0 ==> !(t.pending[0] is Enqueue));
                    assert(t.in_transit().len() == 0);
                },
                CommandModel::Join => {
                    assert(s.in_transit().len() == 0);
                    assert(t.in_transit().len() == 0);
                },
            }
        },
        Step::Work => {
            assert(t.in_transit() == s.in_transit());
            match s.worker.next_action() {
                WorkerAction::Dequeue => {
                    if s.queue.len() > 0 {
                        lemma_flatten_drop_first(s.queue);
                    }
                },
                _ => {},
            }
        },
    }
}

/// Shutdown comes to an end. In every state that a session can be in once
/// shutdown has been asked for, with any number of frames submitted or none:
/// no run from there is longer than the bound that the state gives, and as
/// long as the producer has not joined the worker, one of the two can take a
/// step. So the worker leaves its loop and shutdown returns.
pub proof fn law_shutdown_terminates(s: PipelineState, steps: Seq<Step>)
    requires
        s.inv(),
        s.closed,
        s.admits(steps),
    ensures
        steps.len() + s.run(steps).remaining() <= s.remaining(),
        s.run(steps).inv(),
        s.run(steps).closed,
        !s.run(steps).joined ==> s.run(steps).enabled(Step::Perform) || s.run(steps).enabled(
            Step::Work,
        ),
    decreases steps.len(),
{
    if steps.len() > 0 {
        law_shutdown_terminates(s, steps.drop_last());
        lemma_inv_step(s.run(steps.drop_last()), steps.last());
        lemma_step_nearer_to_end(s.run(steps.drop_last()), steps.last());
    }
    let t = s.run(steps);
    if !t.joined {
        assert(t.pending.len() > 0);
        if t.pending[0] is Join && t.worker.phase != WorkerPhase::Terminated {
            assert(t.end_sent());
            assert(t.channel.len() > 0);
        }
    }
}

} // verus!
