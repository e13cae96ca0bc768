//! A byte reader over a channel of encoded chunks: it hands out the bytes of
//! the chunks in the order in which they arrive, pulling the next chunk from
//! the channel only once the current one is used up.

use vstd::prelude::*;
use crate::bytes_spec::{bytes_new, bytes_as_slice};
use crate::channel::recv;
use crate::models::Chunk;

verus! {

/// Why a read could not deliver data.
#[derive(Debug, Clone, Copy, PartialEq, Eq, Structural)]
pub enum ChunkReadError {
    /// The current chunk was used up and every sender of chunks is gone.
    BrokenPipe,
    /// The chunk taken from the channel was empty; it is used up, and the
    /// read gave no bytes. Reading again takes the next chunk.
    SkippedEmptyChunk,
}

/// Reads the bytes of the chunks that arrive on a channel, one after the
/// other.
pub struct ChunkReader {
    current_chunk: Chunk,
    current_offset: usize,
    input: std::sync::mpsc::Receiver<Chunk>,
    received: Ghost<Seq<Seq<u8>>>,
    delivered: Ghost<Seq<u8>>,
}

impl ChunkReader {
    /// The chunks taken from the channel so far, in order of arrival.
    pub closed spec fn received(&self) -> Seq<Seq<u8>> {
        self.received@
    }

    /// The bytes handed out by reads so far, in order.
    pub closed spec fn delivered(&self) -> Seq<u8> {
        self.delivered@
    }

    /// The bytes of the current chunk that no read has handed out yet.
    pub closed spec fn pending(&self) -> Seq<u8> {
        self.current_chunk@.subrange(self.current_offset as int, self.current_chunk@.len() as int)
    }

    /// Well-formedness: the offset lies within the current chunk, and the
    /// bytes handed out followed by the pending bytes are exactly the bytes
    /// of all chunks received.
    pub closed spec fn wf(&self) -> bool {
        &&& self.current_offset <= self.current_chunk@.len()
        &&& self.delivered@ + self.pending() == self.received@.flatten()
    }

    /// A reader over `input` that has received and handed out nothing.
    pub fn new(input: std::sync::mpsc::Receiver<Chunk>) -> (r: Self)
        ensures
            r.wf(),
            r.received() == Seq::<Seq<u8>>::empty(),
            r.delivered() == Seq::<u8>::empty(),
            r.pending() == Seq::<u8>::empty(),
    {
        let r = ChunkReader {
            current_chunk: Chunk::from(bytes_new()),
            current_offset: 0,
            input,
            received: Ghost(Seq::empty()),
            delivered: Ghost(Seq::empty()),
        };
        assert(r.pending() =~= Seq::<u8>::empty());
        assert(r.received@.flatten() =~= Seq::<u8>::empty());
        r
    }

    /// Makes what the channel gave the current chunk, once the current one is
    /// used up: a received chunk becomes the current chunk, with all of its
    /// bytes pending, and is recorded as the last chunk received; a closed
    /// channel gives `BrokenPipe` and changes nothing.
    pub fn take_received(
        &mut self,
        received: Result<Chunk, std::sync::mpsc::RecvError>,
    ) -> (r: Result<(), ChunkReadError>)
        requires
            old(self).wf(),
            old(self).pending().len() == 0,
        ensures
            final(self).wf(),
            final(self).delivered() == old(self).delivered(),
            match received {
                Ok(c) => {
                    &&& r is Ok
                    &&& final(self).received() == old(self).received().push(c@)
                    &&& final(self).pending() == c@
                },
                Err(_) => {
                    &&& r == Err::<(), ChunkReadError>(ChunkReadError::BrokenPipe)
                    &&& final(self).received() == old(self).received()
                    &&& final(self).pending() == old(self).pending()
                },
            },
    {
        match received {
            Ok(chunk) => {
                let ghost old_received = self.received@;
                proof {
                    assert(self.delivered@ + self.pending() =~= self.delivered@);
                    old_received.lemma_flatten_push(chunk@);
                    assert(chunk@.subrange(0, chunk@.len() as int) =~= chunk@);
                }
                self.received = Ghost(self.received@.push(chunk@));
                self.current_chunk = chunk;
                self.current_offset = 0;
                assert(self.pending() =~= chunk@);
                Ok(())
            },
            Err(_) => Err(ChunkReadError::BrokenPipe),
        }
    }

    /// Copies pending bytes into the front of `buf` and returns how many.
    ///
    /// When no byte of the current chunk is pending, the next chunk is first
    /// taken from the channel (blocking until one arrives, see
    /// `take_received`), whatever the length of `buf`: a closed channel gives
    /// `BrokenPipe`. Into a non-empty `buf`, an empty chunk is used up at once
    /// and gives `SkippedEmptyChunk`, so that a read into a non-empty buffer
    /// that succeeds returns at least one byte. The number of bytes copied is the smaller of
    /// `buf`'s length and the number of bytes pending; the rest of `buf` is
    /// left as it was.
    pub fn read_into(&mut self, buf: &mut [u8]) -> (r: Result<usize, ChunkReadError>)
        requires
            old(self).wf(),
        ensures
            final(self).wf(),
            final(buf)@.len() == old(buf)@.len(),
            old(buf)@.len() == 0 ==> (r is Ok || r == Err::<usize, ChunkReadError>(ChunkReadError::BrokenPipe)),
            old(self).pending().len() > 0 ==> r is Ok && final(self).received() == old(self).received(),
            match r {
                Ok(n) => {
                    let fresh = old(self).pending().len() == 0;
                    let src = if fresh { final(self).received().last() } else { old(self).pending() };
                    &&& fresh ==> final(self).received().len() == old(self).received().len() + 1
                    &&& fresh ==> final(self).received().drop_last() == old(self).received()
                    &&& !fresh ==> final(self).received() == old(self).received()
                    &&& n as int == if old(buf)@.len() < src.len() { old(buf)@.len() as int } else { src.len() as int }
                    &&& old(buf)@.len() > 0 ==> n > 0
                    &&& final(buf)@ == src.take(n as int) + old(buf)@.skip(n as int)
                    &&& final(self).delivered() == old(self).delivered() + src.take(n as int)
                    &&& final(self).pending() == src.skip(n as int)
                },
                Err(e) => {
                    &&& old(self).pending().len() == 0
                    &&& e == ChunkReadError::SkippedEmptyChunk ==> old(buf)@.len() > 0
                    &&& final(buf)@ == old(buf)@
                    &&& final(self).delivered() == old(self).delivered()
                    &&& final(self).pending() == Seq::<u8>::empty()
                    &&& e == ChunkReadError::BrokenPipe ==> final(self).received() == old(self).received()
                    &&& e == ChunkReadError::SkippedEmptyChunk ==> {
                        &&& final(self).received() == old(self).received().push(Seq::<u8>::empty())
                    }
                },
            },
    {
        let len = self.current_chunk.len();
        if self.current_offset >= len {
            assert(self.pending().len() == 0);
            let received = recv(&self.input);
            match self.take_received(received) {
                Ok(()) => {},
                Err(e) => {
                    return Err(e);
                },
            }
            if buf.len() > 0 && self.current_offset >= self.current_chunk.len() {
                assert(self.pending() =~= Seq::<u8>::empty());
                return Err(ChunkReadError::SkippedEmptyChunk);
            }
        }
        assert(self.wf());
        assert(buf@.len() > 0 ==> self.current_offset < self.current_chunk@.len());
        let ghost src = self.pending();
        assert(buf@.len() > 0 ==> src.len() > 0);
        let ghost d0 = self.delivered@;
        let ghost old_buf = buf@;
        let offset = self.current_offset;
        let data = bytes_as_slice(self.current_chunk.data());
        let available = data.len() - offset;
        let n = if buf.len() < available { buf.len() } else { available };
        let mut i: usize = 0;
        while i < n
            invariant
                0 <= i <= n,
                n <= buf@.len(),
                offset + n <= data.len(),
                buf@.len() == old_buf.len(),
                src == data@.subrange(offset as int, data@.len() as int),
                forall|j: int| 0 <= j < i ==> buf@[j] == data@[offset + j],
                forall|j: int| i <= j < buf@.len() ==> buf@[j] == old_buf[j],
            decreases n - i,
        {
            buf[i] = data[offset + i];
            i = i + 1;
        }
        proof {
            assert(buf@ =~= src.take(n as int) + old_buf.skip(n as int));
            assert(src.skip(n as int) =~= self.current_chunk@.subrange(offset + n, self.current_chunk@.len() as int));
            assert(src =~= src.take(n as int) + src.skip(n as int));
        }
        self.delivered = Ghost(self.delivered@ + src.take(n as int));
        self.current_offset = offset + n;
        proof {
            assert(self.pending() =~= src.skip(n as int));
            assert(d0 + src.take(n as int) + src.skip(n as int) =~= d0 + src);
        }
        Ok(n)
    }
}

/// The bytes a reader has handed out are always the start of the
/// concatenation of the chunks it has received, in order: no byte is lost,
/// repeated or reordered, and every byte received but not yet handed out is
/// still pending.
pub proof fn lemma_reader_delivers_stream_prefix(r: &ChunkReader)
    requires
        r.wf(),
    ensures
        r.delivered() == r.received().flatten().take(r.delivered().len() as int),
        r.received().flatten() == r.delivered() + r.pending(),
{
    assert((r.delivered() + r.pending()).take(r.delivered().len() as int) =~= r.delivered());
}

} // verus!
