//! The open batch: frames pile up here until there are enough to seal.

use vstd::prelude::*;
use crate::model::{
    frames_of, lemma_frames_of_empty, lemma_frames_of_push, optional_frames, Batch, FrameData,
};

verus! {

/// The number of frames in a batch unless another is asked for.
pub const BLOCK_SIZE: usize = 240;

/// What a push does to an open batch that seals at `capacity` frames: the
/// open batch afterwards, and the batch that was sealed, if one was.
pub open spec fn spec_push(capacity: nat, open: Batch, frame: FrameData) -> (Batch, Option<Batch>) {
    if open.len() + 1 >= capacity {
        (Seq::empty(), Some(open.push(frame)))
    } else {
        (open.push(frame), None)
    }
}

/// What sealing by force does to an open batch: nothing is sealed from an
/// empty one.
pub open spec fn spec_seal(open: Batch) -> Option<Batch> {
    if open.len() == 0 {
        None
    } else {
        Some(open)
    }
}

/// Collects frames into the one open batch and seals it when it is full.
///
/// The open batch always holds fewer frames than the capacity, which is fixed
/// when the accumulator is made and is at least one.
pub struct Accumulator {
    open: Vec<Vec<u8>>,
    capacity: usize,
}

impl Accumulator {
    #[verifier::type_invariant]
    spec fn within_capacity(self) -> bool {
        self.open@.len() < self.capacity
    }

    /// The frames of the open batch, oldest first.
    pub closed spec fn view(&self) -> Batch {
        frames_of(self.open@)
    }

    /// The number of frames at which the open batch is sealed.
    pub closed spec fn spec_capacity(&self) -> nat {
        self.capacity as nat
    }

    /// An accumulator with an empty open batch, or nothing where `capacity`
    /// is zero: a batch must be able to take the frame that seals it.
    pub fn new(capacity: usize) -> (made: Option<Self>)
        ensures
            made is Some <==> capacity > 0,
            made matches Some(acc) ==> acc@ == Seq::<Seq<u8>>::empty() && acc.spec_capacity()
                == capacity,
    {
        if capacity == 0 {
            None
        } else {
            let acc = Accumulator { open: Vec::new(), capacity };
            proof {
                lemma_frames_of_empty();
            }
            Some(acc)
        }
    }

    /// The number of frames at which the open batch is sealed.
    pub fn capacity(&self) -> (n: usize)
        ensures
            n == self.spec_capacity(),
            n > 0,
    {
        proof {
            use_type_invariant(self);
        }
        self.capacity
    }

    /// The number of frames in the open batch.
    pub fn len(&self) -> (n: usize)
        ensures
            n == self@.len(),
            n < self.spec_capacity(),
    {
        proof {
            use_type_invariant(self);
        }
        self.open.len()
    }

    /// Whether the open batch holds no frame.
    pub fn is_empty(&self) -> (empty: bool)
        ensures
            empty == (self@.len() == 0),
    {
        self.open.len() == 0
    }

    /// Appends `frame` to the open batch. When that fills the batch it is
    /// sealed and returned, and a fresh empty batch takes its place.
    pub fn push(&mut self, frame: Vec<u8>) -> (sealed: Option<Vec<Vec<u8>>>)
        ensures
            final(self).spec_capacity() == old(self).spec_capacity(),
            (final(self)@, optional_frames(sealed)) == spec_push(
                old(self).spec_capacity(),
                old(self)@,
                frame@,
            ),
    {
        proof {
            use_type_invariant(&*self);
            lemma_frames_of_push(self.open@, frame);
            lemma_frames_of_empty();
        }
        let mut batch: Vec<Vec<u8>> = Vec::new();
        core::mem::swap(&mut self.open, &mut batch);
        batch.push(frame);
        if batch.len() >= self.capacity {
            Some(batch)
        } else {
            core::mem::swap(&mut self.open, &mut batch);
            None
        }
    }

    /// Seals the open batch though it is not full, so that no frame stays
    /// behind; returns nothing where the open batch is empty.
    pub fn seal(&mut self) -> (sealed: Option<Vec<Vec<u8>>>)
        ensures
            final(self).spec_capacity() == old(self).spec_capacity(),
            final(self)@ == Seq::<Seq<u8>>::empty(),
            optional_frames(sealed) == spec_seal(old(self)@),
    {
        proof {
            use_type_invariant(&*self);
            lemma_frames_of_empty();
        }
        if self.open.len() == 0 {
            None
        } else {
            let mut batch: Vec<Vec<u8>> = Vec::new();
            core::mem::swap(&mut self.open, &mut batch);
            Some(batch)
        }
    }
}

} // verus!
