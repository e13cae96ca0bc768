//! The data that flows through the player: encoded chunks and decoded frames.

use vstd::prelude::*;
use crate::bytes_spec::{bytes_view, bytes_as_slice};
use vstd::string::StringExecFns;

verus! {

/// Chunk of encoded audio data, eg. MP3.
pub struct Chunk {
    data: bytes::Bytes,
}

impl View for Chunk {
    type V = Seq<u8>;

    closed spec fn view(&self) -> Seq<u8> {
        bytes_view(self.data)
    }
}

impl Chunk {
    /// The encoded bytes of this chunk.
    pub fn data(&self) -> (d: &bytes::Bytes)
        ensures
            bytes_view(*d) == self@,
    {
        &self.data
    }

    /// Number of encoded bytes in this chunk.
    pub fn len(&self) -> (n: usize)
        ensures
            n == self@.len(),
    {
        bytes_as_slice(&self.data).len()
    }
}

/// The decimal digit for `d` (below ten).
pub open spec fn digit_char(d: nat) -> char {
    ((48 + d) as u32) as char
}

/// The decimal representation of `n`, without leading zeros.
pub open spec fn decimal_text(n: nat) -> Seq<char>
    decreases n,
{
    if n < 10 {
        seq![digit_char(n)]
    } else {
        decimal_text(n / 10).push(digit_char(n % 10))
    }
}

/// The text that describes a chunk of `size` bytes.
pub open spec fn chunk_description(size: nat) -> Seq<char> {
    "Chunk {size="@ + decimal_text(size) + "}"@
}

/// Calls `ToString` (through `Display`) on a `usize`, which std documents as
/// its decimal representation without leading zeros.
#[verifier::external_body]
fn usize_decimal(n: usize) -> (s: String)
    ensures
        s@ == decimal_text(n as nat),
{
    n.to_string()
}

impl Chunk {
    /// Describes the chunk by its size, as in `Chunk {size=3}`.
    pub fn describe(&self) -> (s: String)
        ensures
            s@ == chunk_description(self@.len()),
    {
        let mut s = String::from_str("Chunk {size=");
        let digits = usize_decimal(self.len());
        s.append(digits.as_str());
        s.append("}");
        s
    }
}

impl From<bytes::Bytes> for Chunk {
    fn from(value: bytes::Bytes) -> (c: Self)
        ensures
            c@ == bytes_view(value),
    {
        Chunk { data: value }
    }
}

impl vstd::std_specs::convert::FromSpecImpl<bytes::Bytes> for Chunk {
    open spec fn obeys_from_spec() -> bool {
        true
    }

    closed spec fn from_spec(v: bytes::Bytes) -> Chunk {
        Chunk { data: v }
    }
}

/// A block of PCM audio data, interleaved by channel, ready for playback on
/// a PCM audio device. `S` is the sample type.
pub struct Frames<S> {
    channels: usize,
    data: Vec<S>,
}

impl<S> Frames<S> {
    /// Number of interleaved channels.
    pub closed spec fn spec_channels(&self) -> nat {
        self.channels as nat
    }

    /// The interleaved samples.
    pub closed spec fn samples(&self) -> Seq<S> {
        self.data@
    }

    /// Frames with the given channel count and interleaved samples.
    pub fn new(channels: usize, data: Vec<S>) -> (f: Self)
        ensures
            f.spec_channels() == channels,
            f.samples() == data@,
    {
        Frames { channels, data }
    }

    /// Frames with no channels and no samples.
    pub fn new_empty() -> (f: Self)
        ensures
            f.spec_channels() == 0,
            f.samples() == Seq::<S>::empty(),
    {
        Frames { channels: 0, data: Vec::new() }
    }

    /// Number of interleaved channels.
    pub fn channels(&self) -> (c: usize)
        ensures
            c == self.spec_channels(),
    {
        self.channels
    }

    /// Number of complete frames, that is of sample groups holding one
    /// sample per channel. A partial trailing group is not counted.
    pub fn num_frames(&self) -> (n: usize)
        requires
            self.spec_channels() > 0,
        ensures
            n == self.samples().len() / self.spec_channels(),
            n * self.spec_channels() <= self.samples().len() < (n + 1) * self.spec_channels(),
    {
        let n = self.data.len() / self.channels;
        proof {
            let len = self.data@.len() as int;
            let c = self.channels as int;
            vstd::arithmetic::div_mod::lemma_fundamental_div_mod(len, c);
            assert(n * c <= len < (n + 1) * c) by (nonlinear_arith)
                requires
                    len == c * (len / c) + len % c,
                    0 <= len % c < c,
                    n == len / c,
            ;
        }
        n
    }

    /// The interleaved samples.
    pub fn data(&self) -> (d: &[S])
        ensures
            d@ == self.samples(),
    {
        self.data.as_slice()
    }
}

} // verus!
