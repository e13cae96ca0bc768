//! The commands and events exchanged with the player backend, and the
//! interfaces of its stages: a loader that fetches encoded chunks, a decoder
//! that turns them into frames and a player that sends frames to the audio
//! device.

use vstd::prelude::*;
use crate::models::{Chunk, Frames};

verus! {

/// A command sent to the backend.
#[derive(Debug)]
pub enum BackendCommand {
    /// Play the stream at this URL, given in its normalised form.
    PlayUrl(String),
    /// Stop the current stream.
    StopPlayback,
    /// Stop every stage of the backend.
    Shutdown,
}

/// An event reported by the backend.
#[derive(Debug, Clone, Copy, PartialEq, Eq, Structural)]
pub enum BackendEvent {
    PlaybackStarted,
    PlaybackStopped,
}

/// Why an operation of a stage failed.
#[derive(Debug)]
pub enum PortError {
    /// The channel to or from another stage is closed.
    Disconnected,
    /// The stage's outside work failed; the text says how.
    Failed(String),
}

/// The backend as its frontends see it.
pub trait Backend {
    /// Hands a command to the backend.
    fn send_command(&self, cmd: BackendCommand) -> Result<(), PortError>;

    /// The channel on which the backend reports events.
    fn event_receiver(&self) -> &std::sync::mpsc::Receiver<BackendEvent>;
}

/// The stage that fetches encoded audio.
pub trait Loader: Sized + Send {
    /// A loader with no URL set.
    fn new() -> Self;

    /// Sets the URL to load the stream from. If changed, the next call to
    /// `read_chunk` loads from the new URL, starting from the beginning;
    /// `None` stops loading.
    fn set_url(&mut self, url: Option<String>);

    /// Reads a chunk and blocks until it is available; `None` when there is
    /// no stream to read from.
    fn read_chunk(&self) -> Result<Option<Chunk>, PortError>;
}

/// The stage that sends frames of samples of type `S` to the audio device.
pub trait Player<S>: Sized {
    /// A player that takes its frames from `input`.
    fn new(input: std::sync::mpsc::Receiver<Frames<S>>) -> Self;

    /// Reads frames, sends them to the playback hardware and blocks until it
    /// is ready to play the next ones. This will likely return before the
    /// last sample is played, to allow for gapless playback.
    fn play(&mut self) -> Result<(), PortError>;
}

/// The stage that decodes chunks into frames of samples of type `S`.
pub trait Decoder<S>: Sized {
    /// A decoder that takes its chunks from `chunk_input`.
    fn new(chunk_input: std::sync::mpsc::Receiver<Chunk>) -> Self;

    /// Decodes the next frames.
    fn decode(&mut self) -> Result<Frames<S>, PortError>;
}

} // verus!
