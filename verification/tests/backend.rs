use oidar::backend::{Chunk, DecoderState, Frame, NullPlayer, Player};
use oidar::ports::BackendEvent;

#[test]
fn chunk_copies_slice() {
    let data = [4u8, 5, 6];
    let c = Chunk::from(&data[..]);
    assert_eq!(c.data(), &[4, 5, 6]);
}

#[test]
fn null_player_accepts_frames() {
    NullPlayer::play(Frame {});
}

#[test]
fn decoder_states() {
    assert_ne!(DecoderState::NeedChunk, DecoderState::FinishedFrame(Frame {}));
    assert_ne!(BackendEvent::PlaybackStarted, BackendEvent::PlaybackStopped);
}
