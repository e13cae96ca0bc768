//! Core of an internet radio player: the data that flows between the stream
//! loader, the decoder and the audio player, and the decisions each of those
//! stages takes.

pub mod bytes_spec;
pub mod channel;
pub mod chunk_reader;
pub mod models;
pub mod playback;
pub mod ports;
pub mod service;
pub mod frontend;
pub mod decoding;
pub mod stream_loader;
pub mod dummy;
pub mod backend;
