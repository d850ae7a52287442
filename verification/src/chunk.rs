//! Samples and the fixed-size chunks they travel in.

use vstd::prelude::*;

verus! {

/// One amplitude, carried as the bit pattern of a single-precision number.
pub type Sample = u32;

/// Number of samples in every chunk.
pub const CHUNK_LEN: usize = 512;

/// The sample emitted while the stream is starved: the bit pattern of
/// positive zero.
pub const SILENCE: Sample = 0;

/// The unit that travels through the queue: exactly [`CHUNK_LEN`] samples.
/// How channels are interleaved inside it is up to the producer.
pub type StreamChunk = [Sample; 512];

/// A chunk as a mathematical sequence of samples.
pub type ChunkView = Seq<Sample>;

/// Whether `chunk` has the length of a [`StreamChunk`].
pub open spec fn is_chunk(chunk: ChunkView) -> bool {
    chunk.len() == CHUNK_LEN
}

/// The chunk that holds `value` at every index.
pub open spec fn uniform_chunk(value: Sample) -> ChunkView {
    Seq::new(CHUNK_LEN as nat, |i: int| value)
}

} // verus!
