//! The producer side: a cheap, cloneable handle that pushes chunks.

use crate::chunk::StreamChunk;
use crate::queue::{ChunkQueue, SharedQueue};
use vstd::prelude::*;

verus! {

/// Sends chunks of audio through a stream. Every clone pushes into the same
/// queue.
pub struct AudioStreamSender {
    stream: ChunkQueue,
}

impl AudioStreamSender {
    /// The queue this sender pushes into.
    pub closed spec fn queue(&self) -> ChunkQueue {
        self.stream
    }

    /// Creates a sender that pushes into `stream`.
    pub fn new(stream: SharedQueue) -> (sender: Self)
        ensures
            sender.queue().wraps(stream),
    {
        AudioStreamSender { stream: ChunkQueue::from_shared(stream) }
    }

    /// Creates a sender that pushes into the queue behind `stream`.
    pub fn attached_to(stream: ChunkQueue) -> (sender: Self)
        ensures
            sender.queue() == stream,
    {
        AudioStreamSender { stream }
    }

    /// Sends a chunk of audio through the stream and returns whether the
    /// queue took it. The call never blocks: a chunk that finds the queue
    /// full is dropped, and on a stream of capacity zero every chunk is.
    pub fn send(&self, chunk: StreamChunk) -> (accepted: bool)
        ensures
            self.queue().capacity() == 0 ==> !accepted,
    {
        self.stream.try_push(chunk)
    }

    /// Whether `other` pushes into the very queue that this sender pushes
    /// into. Senders of streams without a queue count as sharing.
    pub fn shares_queue_with(&self, other: &AudioStreamSender) -> (same: bool)
        ensures
            same ==> self.queue() == other.queue(),
            !self.queue().has_queue() && !other.queue().has_queue() ==> same,
    {
        self.stream.same_queue(&other.stream)
    }
}

impl Clone for AudioStreamSender {
    /// Another sender on the same queue. No chunk is copied.
    fn clone(&self) -> (copy: Self)
        ensures
            copy.queue() == self.queue(),
    {
        AudioStreamSender { stream: self.stream.clone() }
    }
}

} // verus!
