//! Stand-in stages for running the backend without network or audio
//! hardware.

use vstd::prelude::*;
use crate::bytes_spec::bytes_from_vec;
use crate::channel::recv;
use crate::models::{Chunk, Frames};
use crate::ports::{Decoder, Loader, Player, PortError};

verus! {

/// Number of bytes in each chunk the stand-in loader gives.
pub const DUMMY_CHUNK_LEN: usize = 32;

/// A loader that ignores its URL and gives chunks of zero bytes forever.
pub struct DummyLoader;

impl Loader for DummyLoader {
    fn new() -> (l: Self) {
        DummyLoader
    }

    fn set_url(&mut self, url: Option<String>) {
    }

    fn read_chunk(&self) -> (r: Result<Option<Chunk>, PortError>)
        ensures
            r matches Ok(Some(c)) && c@ == Seq::new(DUMMY_CHUNK_LEN as nat, |i: int| 0u8),
    {
        let data: Vec<u8> = vec![0u8; DUMMY_CHUNK_LEN];
        assert(data@ =~= Seq::new(DUMMY_CHUNK_LEN as nat, |i: int| 0u8));
        Ok(Some(Chunk::from(bytes_from_vec(data))))
    }
}

/// A decoder that turns every chunk it receives into empty frames of
/// samples of type `S`.
pub struct DummyDecoder<S> {
    chunk: Option<Chunk>,
    input: std::sync::mpsc::Receiver<Chunk>,
    sample: std::marker::PhantomData<S>,
}

impl<S> DummyDecoder<S> {
    /// Whether a received chunk is waiting to be decoded.
    pub closed spec fn holds_chunk(&self) -> bool {
        self.chunk is Some
    }

    /// The channel the decoder takes its chunks from.
    pub closed spec fn input(&self) -> std::sync::mpsc::Receiver<Chunk> {
        self.input
    }

    /// Decodes what the channel gave when no chunk was waiting: a chunk is
    /// consumed at once and gives empty frames; a closed channel gives
    /// `Disconnected`. Either way no chunk is left waiting.
    pub fn decode_received(
        &mut self,
        received: Result<Chunk, std::sync::mpsc::RecvError>,
    ) -> (r: Result<Frames<S>, PortError>)
        requires
            !old(self).holds_chunk(),
        ensures
            !final(self).holds_chunk(),
            final(self).input() == old(self).input(),
            received is Ok <==> r is Ok,
            match r {
                Ok(f) => f.spec_channels() == 0 && f.samples() == Seq::<S>::empty(),
                Err(e) => e == PortError::Disconnected,
            },
    {
        match received {
            Ok(c) => {
                self.chunk = Some(c);
            },
            Err(_) => {
                return Err(PortError::Disconnected);
            },
        }
        // the chunk is consumed once all of its data is read
        self.chunk = None;
        // each chunk gives one (empty) block of frames
        Ok(Frames::new_empty())
    }
}

impl<S> Decoder<S> for DummyDecoder<S> {
    fn new(chunk_input: std::sync::mpsc::Receiver<Chunk>) -> (d: Self)
        ensures
            !d.holds_chunk(),
            d.input() == chunk_input,
    {
        DummyDecoder { chunk: None, input: chunk_input, sample: std::marker::PhantomData }
    }

    /// Takes a chunk from the channel unless one is waiting, consumes it and
    /// gives empty frames. Fails with `Disconnected`, holding no chunk, when
    /// none was waiting and the channel is closed.
    fn decode(&mut self) -> (r: Result<Frames<S>, PortError>)
        ensures
            !final(self).holds_chunk(),
            final(self).input() == old(self).input(),
            old(self).holds_chunk() ==> r is Ok,
            match r {
                Ok(f) => f.spec_channels() == 0 && f.samples() == Seq::<S>::empty(),
                Err(e) => e == PortError::Disconnected,
            },
    {
        if self.chunk.is_none() {
            let received = recv(&self.input);
            return self.decode_received(received);
        }
        // the chunk is consumed once all of its data is read
        self.chunk = None;
        // each chunk gives one (empty) block of frames
        Ok(Frames::new_empty())
    }
}

/// A player that takes frames from its channel and discards them.
#[verifier::reject_recursive_types(S)]
pub struct DummyPlayer<S> {
    input: std::sync::mpsc::Receiver<Frames<S>>,
}

impl<S> DummyPlayer<S> {
    /// The channel the player takes its frames from.
    pub closed spec fn input(&self) -> std::sync::mpsc::Receiver<Frames<S>> {
        self.input
    }

    /// Plays what the channel gave: received frames are discarded and the
    /// call succeeds; a closed channel gives `Disconnected`.
    pub fn play_received(
        &mut self,
        received: Result<Frames<S>, std::sync::mpsc::RecvError>,
    ) -> (r: Result<(), PortError>)
        ensures
            final(self).input() == old(self).input(),
            received is Ok <==> r is Ok,
            r matches Err(e) ==> e == PortError::Disconnected,
    {
        match received {
            Ok(_) => Ok(()),
            Err(_) => Err(PortError::Disconnected),
        }
    }
}

impl<S> Player<S> for DummyPlayer<S> {
    fn new(input: std::sync::mpsc::Receiver<Frames<S>>) -> (p: Self)
        ensures
            p.input() == input,
    {
        DummyPlayer { input }
    }

    /// Takes one block of frames from the channel; fails with
    /// `Disconnected` when the channel is closed.
    fn play(&mut self) -> (r: Result<(), PortError>)
        ensures
            final(self).input() == old(self).input(),
            r matches Err(e) ==> e == PortError::Disconnected,
    {
        let received = recv(&self.input);
        self.play_received(received)
    }
}

} // verus!
