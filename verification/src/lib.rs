//! A lossy, non-blocking stream of audio chunks from any number of producers
//! to one real-time consumer.
//!
//! An [`AudioStreamSource`] owns a bounded queue of [`StreamChunk`]s. Every
//! [`AudioStreamSender`] made from it pushes into that queue and is told
//! whether the chunk was taken; the [`AudioStreamDecoder`] made from it hands
//! out one sample per pull and substitutes silence while the queue is empty.

pub mod chunk;
pub mod decoder;
pub mod model;
pub mod plugin;
pub mod queue;
pub mod sender;
pub mod source;

pub use chunk::{Sample, StreamChunk, CHUNK_LEN, SILENCE};
pub use decoder::{AudioStreamDecoder, DecoderState};
pub use model::{Step, StreamState};
pub use plugin::AudioStreamPlugin;
pub use queue::{ChunkQueue, SharedQueue};
pub use sender::AudioStreamSender;
pub use source::AudioStreamSource;
