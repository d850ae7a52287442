//! The owner of a stream: its queue, its format, and the factory for both
//! ends.

use crate::decoder::{AudioStreamDecoder, DecoderState};
use crate::queue::{allocatable, ChunkQueue};
use crate::sender::AudioStreamSender;
use vstd::prelude::*;

verus! {

/// A lossy audio stream. When its queue has no room for a new chunk, the
/// chunk is discarded.
pub struct AudioStreamSource {
    stream: ChunkQueue,
    channels: u16,
    sample_rate: u32,
}

impl AudioStreamSource {
    /// The queue that the stream's senders and decoder share.
    pub closed spec fn queue(&self) -> ChunkQueue {
        self.stream
    }

    /// Number of channels the stream was created with.
    pub closed spec fn channels(&self) -> u16 {
        self.channels
    }

    /// Samples per second the stream was created with.
    pub closed spec fn sample_rate(&self) -> u32 {
        self.sample_rate
    }

    /// Creates a stream whose queue holds up to `capacity` chunks. With a
    /// capacity of zero every send fails.
    pub fn new(capacity: usize, channels: u16, sample_rate: u32) -> (source: Self)
        requires
            allocatable(capacity),
        ensures
            source.queue().capacity() == capacity,
            source.queue().has_queue() <==> capacity > 0,
            source.channels() == channels,
            source.sample_rate() == sample_rate,
    {
        AudioStreamSource { stream: ChunkQueue::with_capacity(capacity), channels, sample_rate }
    }

    /// Returns a sender that pushes into this stream's queue.
    pub fn sender(&self) -> (sender: AudioStreamSender)
        ensures
            sender.queue() == self.queue(),
    {
        AudioStreamSender::attached_to(self.stream.clone())
    }

    /// Returns a decoder, in its fresh state, that pops from this stream's
    /// queue and reports this stream's format.
    pub fn decoder(&self) -> (decoder: AudioStreamDecoder)
        ensures
            decoder@ == DecoderState::fresh(),
            decoder.queue() == self.queue(),
            decoder.channels() == self.channels(),
            decoder.sample_rate() == self.sample_rate(),
    {
        AudioStreamDecoder::attached_to(self.stream.clone(), self.channels, self.sample_rate)
    }
}

/// A decoder reports the channel count and the sample rate that its
/// stream's source was created with.
pub proof fn decoder_reports_source_format(
    capacity: usize,
    channels: u16,
    sample_rate: u32,
    source: AudioStreamSource,
    decoder: AudioStreamDecoder,
    reported_channels: u16,
    reported_rate: u32,
)
    requires
        call_ensures(AudioStreamSource::new, (capacity, channels, sample_rate), source),
        call_ensures(AudioStreamSource::decoder, (&source,), decoder),
        call_ensures(AudioStreamDecoder::channels, (&decoder,), reported_channels),
        call_ensures(AudioStreamDecoder::sample_rate, (&decoder,), reported_rate),
    ensures
        reported_channels == channels,
        reported_rate == sample_rate,
{
}

/// Every sender of a source, every clone of such a sender and the decoder
/// of the source hold the queue of the source, with its capacity: what any
/// of the senders pushes is what the decoder pops.
pub proof fn senders_share_one_queue(
    capacity: usize,
    channels: u16,
    sample_rate: u32,
    source: AudioStreamSource,
    sender: AudioStreamSender,
    twin: AudioStreamSender,
    decoder: AudioStreamDecoder,
)
    requires
        call_ensures(AudioStreamSource::new, (capacity, channels, sample_rate), source),
        call_ensures(AudioStreamSource::sender, (&source,), sender),
        call_ensures(AudioStreamSender::clone, (&sender,), twin),
        call_ensures(AudioStreamSource::decoder, (&source,), decoder),
    ensures
        sender.queue() == source.queue(),
        twin.queue() == source.queue(),
        decoder.queue() == source.queue(),
        source.queue().capacity() == capacity,
{
}

} // verus!
