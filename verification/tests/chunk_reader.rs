use std::sync::mpsc::channel;

use bytes::Bytes;
use oidar::chunk_reader::{ChunkReadError, ChunkReader};
use oidar::models::Chunk;

fn chunk(data: &[u8]) -> Chunk {
    Chunk::from(Bytes::from(data.to_vec()))
}

#[test]
fn reads_chunks_in_order_without_loss() {
    let (tx, rx) = channel();
    tx.send(chunk(&[1, 2, 3])).unwrap();
    tx.send(chunk(&[4, 5])).unwrap();
    let mut reader = ChunkReader::new(rx);
    let mut out = Vec::new();
    let mut buf = [0u8; 2];
    for _ in 0..3 {
        let n = reader.read_into(&mut buf).unwrap();
        out.extend_from_slice(&buf[..n]);
    }
    assert_eq!(out, vec![1, 2, 3, 4, 5]);
}

#[test]
fn read_stops_at_chunk_end() {
    let (tx, rx) = channel();
    tx.send(chunk(&[1, 2, 3])).unwrap();
    tx.send(chunk(&[4, 5])).unwrap();
    let mut reader = ChunkReader::new(rx);
    let mut buf = [9u8; 8];
    assert_eq!(reader.read_into(&mut buf), Ok(3));
    assert_eq!(buf, [1, 2, 3, 9, 9, 9, 9, 9]);
    assert_eq!(reader.read_into(&mut buf), Ok(2));
    assert_eq!(buf, [4, 5, 3, 9, 9, 9, 9, 9]);
}

#[test]
fn short_buffer_takes_a_prefix() {
    let (tx, rx) = channel();
    tx.send(chunk(&[7, 8, 9])).unwrap();
    let mut reader = ChunkReader::new(rx);
    let mut buf = [0u8; 1];
    assert_eq!(reader.read_into(&mut buf), Ok(1));
    assert_eq!(buf, [7]);
    assert_eq!(reader.read_into(&mut buf), Ok(1));
    assert_eq!(buf, [8]);
    assert_eq!(reader.read_into(&mut buf), Ok(1));
    assert_eq!(buf, [9]);
}

#[test]
fn empty_chunk_is_skipped() {
    let (tx, rx) = channel();
    tx.send(chunk(&[])).unwrap();
    tx.send(chunk(&[6])).unwrap();
    let mut reader = ChunkReader::new(rx);
    let mut buf = [0u8; 4];
    assert_eq!(reader.read_into(&mut buf), Err(ChunkReadError::SkippedEmptyChunk));
    assert_eq!(buf, [0, 0, 0, 0]);
    assert_eq!(reader.read_into(&mut buf), Ok(1));
    assert_eq!(buf[0], 6);
}

#[test]
fn received_chunk_becomes_current() {
    let (tx, rx) = channel();
    let mut reader = ChunkReader::new(rx);
    assert_eq!(reader.take_received(Ok(chunk(&[3, 4]))), Ok(()));
    let mut buf = [0u8; 4];
    assert_eq!(reader.read_into(&mut buf), Ok(2));
    assert_eq!(buf, [3, 4, 0, 0]);
    drop(tx);
}

#[test]
fn closed_channel_result_is_broken_pipe() {
    let (_tx, rx) = channel();
    let mut reader = ChunkReader::new(rx);
    assert_eq!(reader.take_received(Err(std::sync::mpsc::RecvError)), Err(ChunkReadError::BrokenPipe));
}

#[test]
fn closed_channel_is_a_broken_pipe() {
    let (tx, rx) = channel();
    tx.send(chunk(&[1])).unwrap();
    drop(tx);
    let mut reader = ChunkReader::new(rx);
    let mut buf = [0u8; 4];
    assert_eq!(reader.read_into(&mut buf), Ok(1));
    assert_eq!(reader.read_into(&mut buf), Err(ChunkReadError::BrokenPipe));
    assert_eq!(buf, [1, 0, 0, 0]);
}

#[test]
fn empty_buffer_reads_nothing() {
    let (tx, rx) = channel();
    tx.send(chunk(&[1, 2])).unwrap();
    let mut reader = ChunkReader::new(rx);
    let mut empty: [u8; 0] = [];
    assert_eq!(reader.read_into(&mut empty), Ok(0));
    assert_eq!(reader.read_into(&mut empty), Ok(0));
    let mut buf = [0u8; 2];
    assert_eq!(reader.read_into(&mut buf), Ok(2));
    assert_eq!(buf, [1, 2]);
}

#[test]
fn empty_buffer_takes_next_chunk() {
    let (tx, rx) = channel();
    tx.send(chunk(&[5])).unwrap();
    drop(tx);
    let mut reader = ChunkReader::new(rx);
    let mut empty: [u8; 0] = [];
    // the next chunk is taken even for an empty buffer
    assert_eq!(reader.read_into(&mut empty), Ok(0));
    let mut buf = [0u8; 1];
    assert_eq!(reader.read_into(&mut buf), Ok(1));
    assert_eq!(buf, [5]);
    // with the chunk used up and the channel closed, even an empty read fails
    assert_eq!(reader.read_into(&mut empty), Err(ChunkReadError::BrokenPipe));
}
