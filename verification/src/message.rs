//! The values that travel between the producer and the worker.

use vstd::prelude::*;

verus! {

/// A notification on the wake channel.
#[derive(Debug, Clone, Copy, PartialEq, Eq, Structural)]
pub enum FrameMessage {
    /// A batch was appended to the queue: try to drain again.
    Frame,
    /// No batch will follow: leave the loop.
    End,
}

/// What the sink said of one write.
#[derive(Debug, Clone, Copy, PartialEq, Eq, Structural)]
pub enum FrameDoneMessage {
    /// The sink took the frame.
    Done,
    /// The sink refused the frame.
    Failed,
}

/// The worker's state as other threads may observe it.
#[derive(Debug, Clone, Copy, PartialEq, Eq, Structural)]
pub enum VideoBackendState {
    /// Draining the queue.
    Running,
    /// Blocked on the wake channel.
    Sleeping,
}

} // verus!
