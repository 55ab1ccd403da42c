//! The producer's side: the facade that takes frames and says what has to be
//! handed to the worker.
//!
//! The controller holds the open batch and nothing that is shared. Each call
//! returns the commands that the caller has to carry out, in order, before
//! its next call: appending a sealed batch to the shared queue, sending a
//! message on the wake channel, joining the worker.

use vstd::prelude::*;
use crate::accumulator::{spec_push, spec_seal, Accumulator, BLOCK_SIZE};
use crate::message::FrameMessage;
use crate::model::{frames_of, optional_frames, Batch, FrameData};

verus! {

/// One thing that the producer's thread has to do for the pipeline.
#[derive(Debug, Clone, PartialEq, Eq)]
pub enum Command {
    /// Append this sealed batch at the tail of the shared queue.
    Enqueue(Vec<Vec<u8>>),
    /// Send this message on the wake channel.
    Send(FrameMessage),
    /// Wait until the worker has left its loop.
    Join,
}

/// A command as a mathematical value.
pub enum CommandModel {
    Enqueue(Batch),
    Send(FrameMessage),
    Join,
}

impl Command {
    /// The command as a mathematical value.
    pub open spec fn view(&self) -> CommandModel {
        match *self {
            Command::Enqueue(batch) => CommandModel::Enqueue(frames_of(batch@)),
            Command::Send(message) => CommandModel::Send(message),
            Command::Join => CommandModel::Join,
        }
    }
}

/// The commands that a vector of commands holds.
pub open spec fn commands_of(commands: Seq<Command>) -> Seq<CommandModel> {
    commands.map_values(|command: Command| command@)
}

/// Handing a sealed batch to the worker: append it to the queue, then send
/// one wake. With no batch there is nothing to do.
pub open spec fn spec_handoff(sealed: Option<Batch>) -> Seq<CommandModel> {
    match sealed {
        Some(batch) => seq![
            CommandModel::Enqueue(batch),
            CommandModel::Send(FrameMessage::Frame),
        ],
        None => Seq::empty(),
    }
}

/// Submitting `frame` to a controller whose open batch is `open` and seals at
/// `capacity` frames: the open batch afterwards, and the commands to carry
/// out.
pub open spec fn spec_submit(capacity: nat, open: Batch, frame: FrameData) -> (
    Batch,
    Seq<CommandModel>,
) {
    let (rest, sealed) = spec_push(capacity, open, frame);
    (rest, spec_handoff(sealed))
}

/// Shutting down a controller whose open batch is `open`: the frames that
/// are left are sealed and handed off first, then the end message is sent and
/// the worker joined.
pub open spec fn spec_shutdown(open: Batch) -> Seq<CommandModel> {
    spec_handoff(spec_seal(open)) + seq![
        CommandModel::Send(FrameMessage::End),
        CommandModel::Join,
    ]
}

/// The facade that the producer calls. It lives for one output session: `end`
/// consumes it.
pub struct VideoBackendController {
    accumulator: Accumulator,
}

impl VideoBackendController {
    /// The frames of the open batch, oldest first.
    pub closed spec fn view(&self) -> Batch {
        self.accumulator@
    }

    /// The number of frames in a sealed batch.
    pub closed spec fn spec_block_size(&self) -> nat {
        self.accumulator.spec_capacity()
    }

    /// A controller with batches of [`BLOCK_SIZE`] frames.
    pub fn new() -> (controller: Self)
        ensures
            controller@ == Seq::<Seq<u8>>::empty(),
            controller.spec_block_size() == BLOCK_SIZE,
    {
        VideoBackendController { accumulator: Accumulator::new(BLOCK_SIZE).unwrap() }
    }

    /// A controller with batches of `block_size` frames, or nothing where
    /// `block_size` is zero.
    pub fn with_block_size(block_size: usize) -> (made: Option<Self>)
        ensures
            made is Some <==> block_size > 0,
            made matches Some(controller) ==> controller@ == Seq::<Seq<u8>>::empty()
                && controller.spec_block_size() == block_size,
    {
        match Accumulator::new(block_size) {
            Some(accumulator) => Some(VideoBackendController { accumulator }),
            None => None,
        }
    }

    /// The number of frames in a sealed batch.
    pub fn block_size(&self) -> (n: usize)
        ensures
            n == self.spec_block_size(),
            n > 0,
    {
        self.accumulator.capacity()
    }

    /// The number of frames that wait in the open batch.
    pub fn pending_frames(&self) -> (n: usize)
        ensures
            n == self@.len(),
            n < self.spec_block_size(),
    {
        self.accumulator.len()
    }

    /// Takes one frame. Never waits for the worker. Where the frame fills the
    /// open batch, the commands hand the sealed batch to the worker.
    pub fn write_frame(&mut self, frame: Vec<u8>) -> (commands: Vec<Command>)
        ensures
            final(self).spec_block_size() == old(self).spec_block_size(),
            (final(self)@, commands_of(commands@)) == spec_submit(
                old(self).spec_block_size(),
                old(self)@,
                frame@,
            ),
    {
        let sealed = self.accumulator.push(frame);
        Self::handoff(sealed)
    }

    /// Ends the session. No frame is left behind: what waits in the open
    /// batch is handed off before the end message.
    pub fn end(self) -> (commands: Vec<Command>)
        ensures
            commands_of(commands@) == spec_shutdown(self@),
    {
        let mut controller = self;
        let sealed = controller.accumulator.seal();
        let mut commands = Self::handoff(sealed);
        commands.push(Command::Send(FrameMessage::End));
        commands.push(Command::Join);
        assert(commands_of(commands@) =~= spec_shutdown(self@));
        commands
    }

    fn handoff(sealed: Option<Vec<Vec<u8>>>) -> (commands: Vec<Command>)
        ensures
            commands_of(commands@) == spec_handoff(optional_frames(sealed)),
    {
        let mut commands: Vec<Command> = Vec::new();
        match sealed {
            Some(batch) => {
                commands.push(Command::Enqueue(batch));
                commands.push(Command::Send(FrameMessage::Frame));
            },
            None => {},
        }
        assert(commands_of(commands@) =~= spec_handoff(optional_frames(sealed)));
        commands
    }
}

} // verus!
