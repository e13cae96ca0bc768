//! Decisions of the decoding stage: which track of the stream to decode, and
//! what to do with each packet the container yields and with each outcome of
//! decoding it.

use vstd::prelude::*;

verus! {

/// What the decoder knows of a track of the stream.
#[derive(Debug, Clone, Copy, PartialEq, Eq, Structural)]
pub struct TrackInfo {
    /// The track's identifier; packets name the track they belong to.
    pub id: u32,
    /// The track names a codec (its codec is not the null codec).
    pub has_codec: bool,
}

/// The identifier of the first track that names a codec; `None` when no
/// track does.
pub fn select_track(tracks: &[TrackInfo]) -> (id: Option<u32>)
    ensures
        match id {
            Some(t) => exists|i: int| 0 <= i < tracks@.len()
                && tracks@[i].has_codec
                && tracks@[i].id == t
                && forall|j: int| 0 <= j < i ==> !tracks@[j].has_codec,
            None => forall|i: int| 0 <= i < tracks@.len() ==> !tracks@[i].has_codec,
        },
{
    let mut k: usize = 0;
    while k < tracks.len()
        invariant
            0 <= k <= tracks@.len(),
            forall|j: int| 0 <= j < k ==> !tracks@[j].has_codec,
        decreases tracks@.len() - k,
    {
        if tracks[k].has_codec {
            return Some(tracks[k].id);
        }
        k = k + 1;
    }
    None
}

/// What reading the next packet from the container gave.
#[derive(Debug, Clone, Copy, PartialEq, Eq, Structural)]
pub enum PacketStatus {
    /// A packet of the track with this identifier.
    Packet { track_id: u32 },
    /// The track list changed; the reader and decoder must be set up anew.
    ResetRequired,
    /// Any other error: decoding cannot go on.
    Unrecoverable,
}

/// What the decoder does with the packet status.
#[derive(Debug, Clone, Copy, PartialEq, Eq, Structural)]
pub enum PacketStep {
    /// Drop the reader and decoder, set them up again on the next call, and
    /// yield empty frames for now.
    Restart,
    /// The packet belongs to another track: yield empty frames.
    Skip,
    /// Decode the packet.
    Decode,
    /// Stop decoding for good.
    Halt,
}

/// Decides on a packet status when the track `selected` is being decoded.
pub fn packet_step(status: PacketStatus, selected: u32) -> (s: PacketStep)
    ensures
        match status {
            PacketStatus::Packet { track_id } =>
                s == if track_id == selected { PacketStep::Decode } else { PacketStep::Skip },
            PacketStatus::ResetRequired => s == PacketStep::Restart,
            PacketStatus::Unrecoverable => s == PacketStep::Halt,
        },
{
    match status {
        PacketStatus::Packet { track_id } => {
            if track_id == selected {
                PacketStep::Decode
            } else {
                PacketStep::Skip
            }
        },
        PacketStatus::ResetRequired => PacketStep::Restart,
        PacketStatus::Unrecoverable => PacketStep::Halt,
    }
}

/// What decoding a packet gave.
#[derive(Debug, Clone, Copy, PartialEq, Eq, Structural)]
pub enum DecodeStatus {
    /// Audio samples.
    Decoded,
    /// The packet could not be read.
    IoError,
    /// The packet holds invalid data.
    InvalidData,
    /// Any other error: decoding cannot go on.
    Unrecoverable,
}

/// What the decoder yields for a decode status.
#[derive(Debug, Clone, Copy, PartialEq, Eq, Structural)]
pub enum FrameStep {
    /// Yield the decoded samples as frames.
    Emit,
    /// The packet is skipped: yield empty frames.
    EmitEmpty,
    /// Stop decoding for good.
    Halt,
}

/// Decides on the outcome of decoding a packet: samples are yielded, a
/// packet that could not be read or holds invalid data is skipped, and any
/// other error ends decoding.
pub fn decode_step(status: DecodeStatus) -> (s: FrameStep)
    ensures
        s == match status {
            DecodeStatus::Decoded => FrameStep::Emit,
            DecodeStatus::IoError => FrameStep::EmitEmpty,
            DecodeStatus::InvalidData => FrameStep::EmitEmpty,
            DecodeStatus::Unrecoverable => FrameStep::Halt,
        },
{
    match status {
        DecodeStatus::Decoded => FrameStep::Emit,
        DecodeStatus::IoError => FrameStep::EmitEmpty,
        DecodeStatus::InvalidData => FrameStep::EmitEmpty,
        DecodeStatus::Unrecoverable => FrameStep::Halt,
    }
}

} // verus!
