//! The queue of sealed batches that the producer and the worker share.

use vstd::prelude::*;
use std::collections::VecDeque;
use crate::model::{
    batches_of, frames_of, lemma_batches_of_drop_first, lemma_batches_of_push, optional_frames,
    Batch,
};

verus! {

/// Sealed batches in the order in which they were appended. The producer
/// appends at the tail, the worker takes from the head.
pub struct BatchQueue {
    batches: VecDeque<Vec<Vec<u8>>>,
}

impl BatchQueue {
    /// The batches that wait, oldest first.
    pub closed spec fn view(&self) -> Seq<Batch> {
        batches_of(self.batches@)
    }

    /// A queue in which no batch waits.
    pub fn new() -> (queue: Self)
        ensures
            queue@ == Seq::<Batch>::empty(),
    {
        let queue = BatchQueue { batches: VecDeque::new() };
        assert(queue@ =~= Seq::<Batch>::empty());
        queue
    }

    /// The number of batches that wait.
    pub fn len(&self) -> (n: usize)
        ensures
            n == self@.len(),
    {
        self.batches.len()
    }

    /// Whether no batch waits.
    pub fn is_empty(&self) -> (empty: bool)
        ensures
            empty == (self@.len() == 0),
    {
        self.batches.len() == 0
    }

    /// The number of frames in the oldest batch, if there is one.
    pub fn front_len(&self) -> (n: Option<usize>)
        ensures
            n is Some <==> self@.len() > 0,
            n matches Some(len) ==> len == self@[0].len(),
    {
        if self.batches.len() == 0 {
            None
        } else {
            Some(self.batches[0].len())
        }
    }

    /// Appends a sealed batch at the tail.
    pub fn enqueue(&mut self, batch: Vec<Vec<u8>>)
        ensures
            final(self)@ == old(self)@.push(frames_of(batch@)),
    {
        proof {
            lemma_batches_of_push(self.batches@, batch);
        }
        self.batches.push_back(batch);
    }

    /// Takes the oldest batch from the head, or nothing where none waits.
    pub fn dequeue(&mut self) -> (batch: Option<Vec<Vec<u8>>>)
        ensures
            old(self)@.len() == 0 ==> batch is None && final(self)@ == old(self)@,
            old(self)@.len() > 0 ==> optional_frames(batch) == Some(old(self)@[0]) && final(self)@
                == old(self)@.drop_first(),
    {
        proof {
            if self.batches@.len() > 0 {
                lemma_batches_of_drop_first(self.batches@);
            }
        }
        self.batches.pop_front()
    }
}

} // verus!
