//! The consumer side: a pull-based, endless source of samples.

use crate::chunk::{
    is_chunk, uniform_chunk, ChunkView, Sample, StreamChunk, CHUNK_LEN, SILENCE,
};
use crate::queue::{ChunkQueue, SharedQueue};
use std::time::Duration;
use vstd::prelude::*;

verus! {

/// The decoder's cursor state as a mathematical value: the chunk being read
/// and the index of the next sample to emit from it.
pub struct DecoderState {
    pub chunk: ChunkView,
    pub cursor: nat,
}

impl DecoderState {
    /// The state every decoder starts in: a chunk of silence that is already
    /// used up, so that the first pull asks the queue before emitting.
    pub open spec fn fresh() -> DecoderState {
        DecoderState { chunk: uniform_chunk(SILENCE), cursor: CHUNK_LEN as nat }
    }

    /// The cursor never passes the end of the chunk.
    pub open spec fn well_formed(self) -> bool {
        is_chunk(self.chunk) && self.cursor <= CHUNK_LEN
    }

    /// Whether every sample of the current chunk has been emitted.
    pub open spec fn exhausted(self) -> bool {
        self.cursor >= CHUNK_LEN
    }

    /// What a queue of `capacity` chunks can hand over for the next pull:
    /// nothing while samples are left, since the queue is not asked then,
    /// and never anything if it has no room for a chunk; otherwise nothing
    /// or a whole chunk.
    pub open spec fn may_receive(self, capacity: nat, refill: Option<ChunkView>) -> bool {
        refill matches Some(chunk) ==> is_chunk(chunk) && self.exhausted() && capacity > 0
    }

    /// The state after one pull and the sample that the pull emits, where
    /// `refill` is what the queue handed over for this pull, if anything.
    /// While samples are left the next one is emitted and the cursor moves
    /// on by one. Once the chunk is used up, a refill replaces it and its
    /// first sample is emitted; without a refill the pull emits silence and
    /// the state stays as it is.
    pub open spec fn advance(self, refill: Option<ChunkView>) -> (DecoderState, Sample) {
        if !self.exhausted() {
            (DecoderState { chunk: self.chunk, cursor: self.cursor + 1 }, self.chunk[self.cursor as int])
        } else {
            match refill {
                Some(chunk) => (DecoderState { chunk, cursor: 1 }, chunk[0]),
                None => (self, SILENCE),
            }
        }
    }
}

/// What `refill` is as a mathematical value.
pub open spec fn refill_view(refill: Option<StreamChunk>) -> Option<ChunkView> {
    match refill {
        Some(chunk) => Some(chunk@),
        None => None,
    }
}

/// Receives the samples that the senders of one stream push, one sample
/// per call of [`AudioStreamDecoder::next`].
pub struct AudioStreamDecoder {
    /// Queue to pop new chunks from.
    stream: ChunkQueue,
    /// The chunk currently being read.
    chunk: Box<StreamChunk>,
    /// Index into `chunk` of the next sample.
    i: usize,
    channels: u16,
    sample_rate: u32,
}

impl View for AudioStreamDecoder {
    type V = DecoderState;

    closed spec fn view(&self) -> DecoderState {
        DecoderState { chunk: self.chunk@, cursor: self.i as nat }
    }
}

impl AudioStreamDecoder {
    #[verifier::type_invariant]
    spec fn cursor_in_bounds(self) -> bool {
        self.i <= CHUNK_LEN
    }

    /// The queue this decoder pops from.
    pub closed spec fn queue(&self) -> ChunkQueue {
        self.stream
    }

    /// Creates a decoder that reads from `stream`, in its fresh state.
    pub fn new(stream: SharedQueue, channels: u16, sample_rate: u32) -> (decoder: Self)
        ensures
            decoder@ == DecoderState::fresh(),
            decoder.queue().wraps(stream),
            decoder.channels() == channels,
            decoder.sample_rate() == sample_rate,
    {
        Self::attached_to(ChunkQueue::from_shared(stream), channels, sample_rate)
    }

    /// Creates a decoder that reads from the queue behind `stream`, in its
    /// fresh state.
    pub fn attached_to(stream: ChunkQueue, channels: u16, sample_rate: u32) -> (decoder: Self)
        ensures
            decoder@ == DecoderState::fresh(),
            decoder.queue() == stream,
            decoder.channels() == channels,
            decoder.sample_rate() == sample_rate,
    {
        let decoder = AudioStreamDecoder {
            stream,
            chunk: Box::new([SILENCE;512]),
            i: CHUNK_LEN,
            channels,
            sample_rate,
        };
        assert(decoder@.chunk =~= DecoderState::fresh().chunk);
        decoder
    }

    /// Index of the next sample in the current chunk; [`CHUNK_LEN`] when the
    /// chunk is used up.
    pub fn cursor(&self) -> (cursor: usize)
        ensures
            cursor == self@.cursor,
            self@.well_formed(),
    {
        proof {
            use_type_invariant(self);
        }
        self.i
    }

    /// The channel count that [`AudioStreamDecoder::channels`] returns.
    pub closed spec fn spec_channels(&self) -> u16 {
        self.channels
    }

    /// The sample rate that [`AudioStreamDecoder::sample_rate`] returns.
    pub closed spec fn spec_sample_rate(&self) -> u32 {
        self.sample_rate
    }

    /// Number of channels, as given to the stream's source.
    #[verifier::when_used_as_spec(spec_channels)]
    pub fn channels(&self) -> (channels: u16)
        ensures
            channels == self.channels(),
    {
        self.channels
    }

    /// Samples per second, as given to the stream's source.
    #[verifier::when_used_as_spec(spec_sample_rate)]
    pub fn sample_rate(&self) -> (rate: u32)
        ensures
            rate == self.sample_rate(),
    {
        self.sample_rate
    }

    /// Length of the current frame: unknown, the stream has no framing.
    pub fn current_frame_len(&self) -> (len: Option<usize>)
        ensures
            len is None,
    {
        None
    }

    /// Total duration: unbounded, the stream has no end.
    pub fn total_duration(&self) -> (duration: Option<Duration>)
        ensures
            duration is None,
    {
        None
    }

    /// Emits the next sample. When the current chunk is used up the queue
    /// is asked for another one first; if it has none, the sample is
    /// [`SILENCE`] and the decoder stays where it is, so that the pull after
    /// the next arrival starts at the first sample of the new chunk. The
    /// result is never `None`: the stream has no end.
    pub fn next(&mut self) -> (sample: Option<Sample>)
        ensures
            exists|refill: Option<ChunkView>|
                {
                    &&& #[trigger] old(self)@.may_receive(old(self).queue().capacity(), refill)
                    &&& final(self)@ == old(self)@.advance(refill).0
                    &&& sample == Some(old(self)@.advance(refill).1)
                },
            final(self)@.well_formed(),
            final(self).queue() == old(self).queue(),
            final(self).channels() == old(self).channels(),
            final(self).sample_rate() == old(self).sample_rate(),
    {
        let refill = if self.i >= CHUNK_LEN {
            self.stream.try_pop()
        } else {
            None
        };
        let ghost before = *self;
        let sample: Sample = self.advance(refill);
        assert(before@.may_receive(before.queue().capacity(), refill_view(refill)));
        Some(sample)
    }

    /// Emits one sample, given what the queue handed over for this pull.
    /// A `refill` offered while samples are left is not used.
    pub fn advance(&mut self, refill: Option<StreamChunk>) -> (sample: Sample)
        ensures
            (final(self)@, sample) == old(self)@.advance(refill_view(refill)),
            final(self)@.well_formed(),
            final(self).queue() == old(self).queue(),
            final(self).channels() == old(self).channels(),
            final(self).sample_rate() == old(self).sample_rate(),
    {
        proof {
            use_type_invariant(&*self);
        }
        if self.i >= CHUNK_LEN {
            match refill {
                Some(chunk) => {
                    *self.chunk = chunk;
                    self.i = 0;
                },
                None => {
                    return SILENCE;
                },
            }
        }
        let sample: Sample = self.chunk[self.i];
        self.i += 1;
        sample
    }
}

} // verus!
