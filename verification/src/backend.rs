//! Stage interfaces driven one item at a time: a decoder that is fed chunks
//! and reports whether it finished a frame, a loader with a blocking read,
//! and a player that takes one frame at a time.

use vstd::prelude::*;
use crate::ports::PortError;

verus! {

/// Chunk of encoded audio data, eg. MP3, held in a vector.
pub struct Chunk {
    data: Vec<u8>,
}

impl View for Chunk {
    type V = Seq<u8>;

    closed spec fn view(&self) -> Seq<u8> {
        self.data@
    }
}

impl Chunk {
    /// The encoded bytes of this chunk.
    pub fn data(&self) -> (d: &[u8])
        ensures
            d@ == self@,
    {
        self.data.as_slice()
    }
}

impl<'a> From<&'a [u8]> for Chunk {
    /// A chunk holding a copy of `value`.
    fn from(value: &'a [u8]) -> (c: Self)
        ensures
            c@ == value@,
    {
        Chunk { data: vstd::slice::slice_to_vec(value) }
    }
}

/// The conversion is not described by `from_spec`: a chunk owns a vector,
/// which Verus cannot rebuild from its contents in a specification. What
/// `from` gives is stated by its own `ensures`.
impl<'a> vstd::std_specs::convert::FromSpecImpl<&'a [u8]> for Chunk {
    open spec fn obeys_from_spec() -> bool {
        false
    }

    closed spec fn from_spec(v: &'a [u8]) -> Chunk {
        choose|c: Chunk| c@ == v@
    }
}

/// A frame of PCM coded audio data, ready for playback on a PCM audio
/// device.
#[derive(Debug, Clone, Copy, PartialEq, Eq, Structural)]
pub struct Frame {}

/// What a call of `Decoder::decode` reached.
#[derive(Debug, Clone, Copy, PartialEq, Eq, Structural)]
pub enum DecoderState {
    /// The stream is decoded until the end of the chunk; provide a new
    /// chunk before calling `Decoder::decode` again.
    NeedChunk,
    /// The current chunk was decoded until the end of the frame was reached.
    /// The next call to `Decoder::decode` will start a new frame.
    FinishedFrame(Frame),
}

/// A decoder that is fed chunks.
pub trait Decoder {
    fn decode(&mut self) -> DecoderState;
    fn push_chunk(&mut self, chunk: Chunk);
}

/// A loader with a blocking read.
pub trait Loader {
    /// Reads a chunk and blocks until it is available.
    fn read_chunk() -> Result<Chunk, PortError>;
}

/// A player that takes one frame at a time.
pub trait Player {
    /// Plays the frame on the playback hardware and blocks until it is ready
    /// to play the next frame. This will likely return before the last
    /// sample of the frame is played, to allow for gapless playback.
    fn play(frame: Frame);
}

/// A player that does nothing with its frames.
pub struct NullPlayer {}

impl Player for NullPlayer {
    fn play(_frame: Frame) {
        // do nothing
    }
}

} // verus!
