//! Block-batched frame delivery between a real-time frame producer and a slow
//! frame sink.
//!
//! The producer's side ([`controller`], over [`accumulator`]) collects frames
//! into batches of a fixed size and says what has to be handed to the worker.
//! The worker's side ([`worker`]) is a state machine that drains the shared
//! queue ([`queue`]) into the sink and sleeps on a wake channel when the queue
//! is empty. Neither side touches a thread, a lock or a file: whoever runs
//! them carries out what they ask for.
//!
//! [`protocol`] is the mathematical model of the two sides running side by
//! side, and [`laws`] holds what is proved of every interleaving: frames reach
//! the sink in order, each once, none is lost on shutdown, no wake is lost,
//! and shutdown comes to an end. [`pipeline`] runs the same steps on one
//! thread.
//!
//! Beside the pipeline stand two things that the sinks need: the command line
//! of the `ffmpeg` process that raw frames are piped into ([`options`]), and
//! the conversion of a raw picture into the planes an encoder takes
//! ([`scale`]).

pub mod accumulator;
pub mod config;
pub mod controller;
pub mod laws;
pub mod message;
pub mod model;
pub mod options;
pub mod pipeline;
pub mod protocol;
pub mod queue;
pub mod scale;
pub mod text;
pub mod worker;
