//! The bounded lock-free queue that senders and the decoder share.
//!
//! The queue itself is `crossbeam_queue::ArrayQueue`. It is mutated through
//! shared references by several threads at once, so nothing here describes
//! what it holds at a given moment: the contracts below state only what is
//! true of every call, and the rest of the crate is verified for every
//! outcome of `push` and `pop`.

use crate::chunk::StreamChunk;
use crossbeam_queue::ArrayQueue;
use std::sync::Arc;
use vstd::prelude::*;

verus! {

/// `crossbeam_queue::ArrayQueue`, of which nothing but its identity and its
/// capacity is visible to the proofs.
#[verifier::external_type_specification]
#[verifier::external_body]
#[verifier::reject_recursive_types(T)]
pub struct ExArrayQueue<T>(ArrayQueue<T>);

/// A counted reference to the queue of one stream.
pub type SharedQueue = Arc<ArrayQueue<StreamChunk>>;

/// Bytes that the queue allocates per chunk it can hold: the chunk itself
/// and the eight-byte stamp of its slot.
pub const SLOT_BYTES: usize = 2056;

/// The capacity, in chunks, that `queue` was created with: the number that
/// `ArrayQueue::capacity` reports. It never changes.
pub uninterp spec fn queue_capacity(queue: ArrayQueue<StreamChunk>) -> nat;

/// Whether a queue of `capacity` chunks can be asked for: its buffer must
/// not exceed the largest allocation the platform admits.
pub open spec fn allocatable(capacity: usize) -> bool {
    capacity * SLOT_BYTES <= isize::MAX
}

/// `ArrayQueue::new`: allocates an empty queue with room for `capacity`
/// chunks. The call panics on a capacity of zero and on one whose buffer is
/// too large, so both are left out.
#[verifier::external_body]
pub(crate) fn queue_with_capacity(capacity: usize) -> (queue: ArrayQueue<StreamChunk>)
    requires
        capacity > 0,
        allocatable(capacity),
    ensures
        queue_capacity(queue) == capacity,
{
    ArrayQueue::new(capacity)
}

/// `ArrayQueue::push`: stores `chunk` at the tail unless the queue is full,
/// in which case the chunk comes back unchanged as the error. Whether the
/// queue is full depends on what other threads have done, so the outcome is
/// left open; only a queue with room for at least one chunk ever takes one.
#[verifier::external_body]
pub(crate) fn queue_push(queue: &ArrayQueue<StreamChunk>, chunk: StreamChunk) -> (outcome: Result<
    (),
    StreamChunk,
>)
    ensures
        outcome matches Err(back) ==> back == chunk,
        outcome is Ok ==> queue_capacity(*queue) > 0,
{
    queue.push(chunk)
}

/// `ArrayQueue::pop`: removes the chunk at the head, or returns `None` when
/// the queue is empty. Which of the two happens depends on what other
/// threads have pushed, so the result is left open; only a queue with room
/// for at least one chunk ever yields one.
#[verifier::external_body]
pub(crate) fn queue_pop(queue: &ArrayQueue<StreamChunk>) -> (head: Option<StreamChunk>)
    ensures
        head is Some ==> queue_capacity(*queue) > 0,
{
    queue.pop()
}

/// `Arc::clone`: another reference to the same queue.
#[verifier::external_body]
pub(crate) fn share(queue: &SharedQueue) -> (shared: SharedQueue)
    ensures
        shared == *queue,
{
    Arc::clone(queue)
}

/// `Arc::ptr_eq`: whether two references point to the same allocation, and
/// therefore to the same queue.
#[verifier::external_body]
pub(crate) fn same_allocation(left: &SharedQueue, right: &SharedQueue) -> (same: bool)
    ensures
        same ==> *left == *right,
{
    Arc::ptr_eq(left, right)
}

/// One end of a stream's queue: a handle that any number of holders may
/// share. A stream of capacity zero has no queue behind its handles; every
/// push on it fails and every pop finds nothing.
pub struct ChunkQueue {
    shared: Option<SharedQueue>,
}

impl ChunkQueue {
    /// The number of chunks that the queue behind this handle can hold.
    pub closed spec fn capacity(&self) -> nat {
        match self.shared {
            Some(queue) => queue_capacity(*queue),
            None => 0,
        }
    }

    /// Whether there is a queue behind this handle. There is none exactly
    /// on a stream that was created with a capacity of zero.
    pub closed spec fn has_queue(&self) -> bool {
        self.shared is Some
    }

    /// Whether this handle refers to the queue behind `shared`.
    pub closed spec fn wraps(&self, shared: SharedQueue) -> bool {
        self.shared == Some(shared)
    }

    /// Allocates an empty queue for `capacity` chunks and returns the first
    /// handle to it.
    pub fn with_capacity(capacity: usize) -> (queue: Self)
        requires
            allocatable(capacity),
        ensures
            queue.capacity() == capacity,
            queue.has_queue() <==> capacity > 0,
    {
        if capacity == 0 {
            ChunkQueue { shared: None }
        } else {
            ChunkQueue { shared: Some(Arc::new(queue_with_capacity(capacity))) }
        }
    }

    /// A handle to a queue that already exists.
    pub fn from_shared(shared: SharedQueue) -> (queue: Self)
        ensures
            queue.wraps(shared),
            queue.has_queue(),
            queue.capacity() == queue_capacity(*shared),
    {
        ChunkQueue { shared: Some(shared) }
    }

    /// Whether both handles refer to one and the same queue. Two handles
    /// without a queue count as the same.
    pub fn same_queue(&self, other: &ChunkQueue) -> (same: bool)
        ensures
            same ==> *self == *other,
            !self.has_queue() && !other.has_queue() ==> same,
    {
        match (&self.shared, &other.shared) {
            (Some(left), Some(right)) => same_allocation(left, right),
            (None, None) => true,
            _ => false,
        }
    }

    /// What a push that ended in `outcome` reports to its caller: whether
    /// the queue stored the chunk. A chunk that the queue gave back is
    /// dropped here.
    pub fn stored(outcome: Result<(), StreamChunk>) -> (accepted: bool)
        ensures
            accepted <==> outcome is Ok,
    {
        outcome.is_ok()
    }

    /// Offers `chunk` to the queue without blocking. Returns whether the
    /// queue took it; a chunk that finds the queue full is dropped. Whether
    /// it is full depends on what the other holders have done, so the
    /// answer is open on every queue that can hold a chunk at all.
    pub fn try_push(&self, chunk: StreamChunk) -> (accepted: bool)
        ensures
            self.capacity() == 0 ==> !accepted,
    {
        match &self.shared {
            Some(queue) => Self::stored(queue_push(queue, chunk)),
            None => false,
        }
    }

    /// Takes the oldest chunk out of the queue without blocking, or returns
    /// `None` when the queue is empty. What it finds depends on what the
    /// other holders have done.
    pub fn try_pop(&self) -> (head: Option<StreamChunk>)
        ensures
            self.capacity() == 0 ==> head is None,
    {
        match &self.shared {
            Some(queue) => queue_pop(queue),
            None => None,
        }
    }
}

/// Handles that wrap one queue are one handle: they have that queue behind
/// them, with the capacity it was created with.
pub proof fn wrapping_handles_agree(first: ChunkQueue, second: ChunkQueue, shared: SharedQueue)
    requires
        first.wraps(shared),
        second.wraps(shared),
    ensures
        first == second,
        first.has_queue(),
        first.capacity() == queue_capacity(*shared),
{
}

impl Clone for ChunkQueue {
    /// Another handle to the same queue. No chunk is copied.
    fn clone(&self) -> (other: Self)
        ensures
            other == *self,
    {
        match &self.shared {
            Some(queue) => ChunkQueue { shared: Some(share(queue)) },
            None => ChunkQueue { shared: None },
        }
    }
}

} // verus!
