use bytes::Bytes;
use oidar::models::{Chunk, Frames};

#[test]
fn chunk_holds_its_bytes() {
    let c = Chunk::from(Bytes::from(vec![1u8, 2, 3]));
    assert_eq!(c.len(), 3);
    assert_eq!(&c.data()[..], &[1, 2, 3]);
}

#[test]
fn empty_chunk() {
    let c = Chunk::from(Bytes::new());
    assert_eq!(c.len(), 0);
}

#[test]
fn frames_count_complete_groups() {
    let f = Frames::new(2, vec![0.5f32, -0.5, 0.25, -0.25, 1.0]);
    assert_eq!(f.channels(), 2);
    assert_eq!(f.num_frames(), 2);
    assert_eq!(f.data(), &[0.5f32, -0.5, 0.25, -0.25, 1.0]);
}

#[test]
fn mono_frames() {
    let f = Frames::new(1, vec![0.0f32; 7]);
    assert_eq!(f.num_frames(), 7);
}

#[test]
fn empty_frames() {
    let f: Frames<f32> = Frames::new_empty();
    assert_eq!(f.channels(), 0);
    assert!(f.data().is_empty());
}

#[test]
fn chunk_describes_its_size() {
    assert_eq!(Chunk::from(Bytes::from(vec![1u8, 2, 3])).describe(), "Chunk {size=3}");
    assert_eq!(Chunk::from(Bytes::new()).describe(), "Chunk {size=0}");
    assert_eq!(Chunk::from(Bytes::from(vec![0u8; 1234])).describe(), "Chunk {size=1234}");
}
