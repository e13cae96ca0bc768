use std::sync::mpsc::channel;

use bytes::Bytes;
use oidar::dummy::{DummyDecoder, DummyLoader, DummyPlayer};
use oidar::models::{Chunk, Frames};
use oidar::ports::{Decoder, Loader, Player, PortError};

#[test]
fn dummy_loader_gives_zero_chunks() {
    let mut loader = DummyLoader::new();
    loader.set_url(Some("http://ignored/".to_string()));
    let chunk = loader.read_chunk().unwrap().unwrap();
    assert_eq!(&chunk.data()[..], &[0u8; 32][..]);
}

#[test]
fn dummy_decoder_gives_empty_frames_per_chunk() {
    let (tx, rx) = channel();
    tx.send(Chunk::from(Bytes::from(vec![1u8, 2]))).unwrap();
    let mut decoder: DummyDecoder<f32> = DummyDecoder::new(rx);
    let frames = decoder.decode().unwrap();
    assert_eq!(frames.channels(), 0);
    assert!(frames.data().is_empty());
    drop(tx);
    assert!(matches!(decoder.decode(), Err(PortError::Disconnected)));
}

#[test]
fn dummy_player_takes_frames() {
    let (tx, rx) = channel();
    tx.send(Frames::new(1, vec![0.1f32])).unwrap();
    let mut player = DummyPlayer::new(rx);
    assert!(player.play().is_ok());
    drop(tx);
    assert!(matches!(player.play(), Err(PortError::Disconnected)));
}

#[test]
fn dummy_decoder_decodes_received_chunk() {
    let (_tx, rx) = channel::<Chunk>();
    let mut decoder: DummyDecoder<f32> = DummyDecoder::new(rx);
    let frames = decoder.decode_received(Ok(Chunk::from(Bytes::from(vec![9u8])))).unwrap();
    assert_eq!(frames.channels(), 0);
    assert!(matches!(decoder.decode_received(Err(std::sync::mpsc::RecvError)), Err(PortError::Disconnected)));
}

#[test]
fn dummy_player_plays_received_frames() {
    let (_tx, rx) = channel::<Frames<f32>>();
    let mut player = DummyPlayer::new(rx);
    assert!(player.play_received(Ok(Frames::new(2, vec![0.5f32, 0.5]))).is_ok());
    assert!(matches!(player.play_received(Err(std::sync::mpsc::RecvError)), Err(PortError::Disconnected)));
}
