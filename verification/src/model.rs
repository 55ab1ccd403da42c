//! The mathematical vocabulary of the pipeline: a frame is a sequence of
//! bytes, a batch a sequence of frames, and the containers that hold them in
//! memory are read through these functions.

use vstd::prelude::*;

verus! {

/// The bytes of one frame.
pub type FrameData = Seq<u8>;

/// The frames of one batch, oldest first.
pub type Batch = Seq<Seq<u8>>;

/// The frames that a vector of frame buffers holds.
pub open spec fn frames_of(buffers: Seq<Vec<u8>>) -> Batch {
    buffers.map_values(|buffer: Vec<u8>| buffer@)
}

/// The batches that a sequence of sealed batches holds.
pub open spec fn batches_of(sealed: Seq<Vec<Vec<u8>>>) -> Seq<Batch> {
    sealed.map_values(|batch: Vec<Vec<u8>>| frames_of(batch@))
}

/// The frames of an optional batch; `None` stays `None`.
pub open spec fn optional_frames(batch: Option<Vec<Vec<u8>>>) -> Option<Batch> {
    match batch {
        Some(b) => Some(frames_of(b@)),
        None => None,
    }
}

/// No buffers hold no frames.
pub proof fn lemma_frames_of_empty()
    ensures
        frames_of(Seq::empty()) == Seq::<Seq<u8>>::empty(),
{
    assert(frames_of(Seq::empty()) =~= Seq::<Seq<u8>>::empty());
}

/// One more buffer holds one more frame.
pub proof fn lemma_frames_of_push(buffers: Seq<Vec<u8>>, buffer: Vec<u8>)
    ensures
        frames_of(buffers.push(buffer)) == frames_of(buffers).push(buffer@),
{
    assert(frames_of(buffers.push(buffer)) =~= frames_of(buffers).push(buffer@));
}

/// The buffers after the first `n` hold the frames after the first `n`.
pub proof fn lemma_frames_of_skip(buffers: Seq<Vec<u8>>, n: int)
    requires
        0 <= n <= buffers.len(),
    ensures
        frames_of(buffers.skip(n)) == frames_of(buffers).skip(n),
{
    assert(frames_of(buffers.skip(n)) =~= frames_of(buffers).skip(n));
}

/// One more sealed batch holds one more batch of frames.
pub proof fn lemma_batches_of_push(sealed: Seq<Vec<Vec<u8>>>, batch: Vec<Vec<u8>>)
    ensures
        batches_of(sealed.push(batch)) == batches_of(sealed).push(frames_of(batch@)),
{
    assert(batches_of(sealed.push(batch)) =~= batches_of(sealed).push(frames_of(batch@)));
}

/// The sealed batches after the first hold the batches after the first.
pub proof fn lemma_batches_of_drop_first(sealed: Seq<Vec<Vec<u8>>>)
    requires
        sealed.len() > 0,
    ensures
        batches_of(sealed.subrange(1, sealed.len() as int)) == batches_of(sealed).drop_first(),
        batches_of(sealed)[0] == frames_of(sealed[0]@),
{
    assert(batches_of(sealed.subrange(1, sealed.len() as int)) =~= batches_of(
        sealed,
    ).drop_first());
}

} // verus!
