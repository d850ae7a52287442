//! A stream between two operations, as one observer sees it, and what
//! follows from that picture.
//!
//! The queue is shared by threads, so no contract of an executable function
//! can say what it holds. The model here is the sequential reading of the
//! stream: the queue is a bounded first-in-first-out sequence of chunks,
//! [`StreamState::send`] is a push by any sender and [`StreamState::pull`]
//! is one call of the decoder, whose part is
//! [`DecoderState::advance`](crate::decoder::DecoderState::advance), the
//! function that the decoder's own contract is stated with.

use crate::chunk::{is_chunk, uniform_chunk, ChunkView, Sample, CHUNK_LEN, SILENCE};
use crate::decoder::DecoderState;
use vstd::prelude::*;

verus! {

/// The queue and the decoder of one stream at rest.
pub struct StreamState {
    /// Number of chunks the queue can hold.
    pub capacity: nat,
    /// The chunks in the queue, oldest first.
    pub pending: Seq<ChunkView>,
    /// The decoder's cursor state.
    pub decoder: DecoderState,
}

impl StreamState {
    /// A stream right after its creation: nothing is queued and the decoder
    /// is fresh.
    pub open spec fn opened(capacity: nat) -> StreamState {
        StreamState { capacity, pending: Seq::empty(), decoder: DecoderState::fresh() }
    }

    /// The queue holds whole chunks and no more of them than its capacity,
    /// and the decoder's cursor is in bounds.
    pub open spec fn well_formed(self) -> bool {
        &&& self.pending.len() <= self.capacity
        &&& forall|i: int| 0 <= i < self.pending.len() ==> is_chunk(#[trigger] self.pending[i])
        &&& self.decoder.well_formed()
    }

    /// Every sample that has been accepted and not yet emitted, in the order
    /// in which it is due: the rest of the decoder's chunk, then the queued
    /// chunks from the oldest on.
    pub open spec fn unread(self) -> Seq<Sample> {
        self.decoder.chunk.skip(self.decoder.cursor as int) + self.pending.flatten()
    }

    /// One send, by whichever sender: the chunk joins the queue at its tail,
    /// unless the queue is full, in which case it is dropped.
    pub open spec fn send(self, chunk: ChunkView) -> (StreamState, bool) {
        if self.pending.len() < self.capacity {
            (StreamState { pending: self.pending.push(chunk), ..self }, true)
        } else {
            (self, false)
        }
    }

    /// What the queue hands the decoder for its next pull: its oldest chunk,
    /// if the decoder asks and there is one.
    pub open spec fn refill(self) -> Option<ChunkView> {
        if self.decoder.exhausted() && self.pending.len() > 0 {
            Some(self.pending[0])
        } else {
            None
        }
    }

    /// One pull of the decoder.
    pub open spec fn pull(self) -> (StreamState, Sample) {
        let (decoder, sample) = self.decoder.advance(self.refill());
        let pending = if self.refill() is Some {
            self.pending.skip(1)
        } else {
            self.pending
        };
        (StreamState { capacity: self.capacity, pending, decoder }, sample)
    }

    /// The sends of `chunks`, one after the other, with the answer to each.
    pub open spec fn send_all(self, chunks: Seq<ChunkView>) -> (StreamState, Seq<bool>)
        decreases chunks.len(),
    {
        if chunks.len() == 0 {
            (self, Seq::empty())
        } else {
            let (before, answers) = self.send_all(chunks.drop_last());
            let (after, accepted) = before.send(chunks.last());
            (after, answers.push(accepted))
        }
    }

    /// `count` pulls, one after the other, with the samples they emit.
    pub open spec fn pull_many(self, count: nat) -> (StreamState, Seq<Sample>)
        decreases count,
    {
        if count == 0 {
            (self, Seq::empty())
        } else {
            let (before, samples) = self.pull_many((count - 1) as nat);
            let (after, sample) = before.pull();
            (after, samples.push(sample))
        }
    }
}

/// One operation on a stream: a send of a chunk by any of its senders, or
/// a pull of its decoder.
pub enum Step {
    Send(ChunkView),
    Pull,
}

impl Step {
    /// A send carries a whole chunk.
    pub open spec fn well_formed(self) -> bool {
        self matches Step::Send(chunk) ==> is_chunk(chunk)
    }
}

impl StreamState {
    /// Whether the next pull finds nothing to emit: the decoder has used up
    /// its chunk and the queue is empty.
    pub open spec fn starved(self) -> bool {
        self.decoder.exhausted() && self.pending.len() == 0
    }

    /// The stream after `steps`, applied in order.
    pub open spec fn run(self, steps: Seq<Step>) -> StreamState
        decreases steps.len(),
    {
        if steps.len() == 0 {
            self
        } else {
            let before = self.run(steps.drop_last());
            match steps.last() {
                Step::Send(chunk) => before.send(chunk).0,
                Step::Pull => before.pull().0,
            }
        }
    }

    /// The samples of the chunks that were accepted during `steps`, in the
    /// order of their sends.
    pub open spec fn accepted(self, steps: Seq<Step>) -> Seq<Sample>
        decreases steps.len(),
    {
        if steps.len() == 0 {
            Seq::empty()
        } else {
            let before = self.run(steps.drop_last());
            let so_far = self.accepted(steps.drop_last());
            match steps.last() {
                Step::Send(chunk) => if before.send(chunk).1 {
                    so_far + chunk
                } else {
                    so_far
                },
                Step::Pull => so_far,
            }
        }
    }

    /// The samples that the pulls among `steps` emitted, in their order,
    /// without the silence of the pulls that found the stream starved.
    pub open spec fn heard(self, steps: Seq<Step>) -> Seq<Sample>
        decreases steps.len(),
    {
        if steps.len() == 0 {
            Seq::empty()
        } else {
            let before = self.run(steps.drop_last());
            let so_far = self.heard(steps.drop_last());
            match steps.last() {
                Step::Send(chunk) => so_far,
                Step::Pull => if before.starved() {
                    so_far
                } else {
                    so_far.push(before.pull().1)
                },
            }
        }
    }
}

/// Every pull of the model is a pull that the decoder's contract admits:
/// what the queue hands over is nothing or a whole chunk, and a chunk only
/// when the decoder has used up its own and the queue can hold one.
pub proof fn pull_is_a_decoder_pull(stream: StreamState)
    requires
        stream.well_formed(),
    ensures
        stream.decoder.may_receive(stream.capacity, stream.refill()),
        stream.pull().0.decoder == stream.decoder.advance(stream.refill()).0,
        stream.pull().1 == stream.decoder.advance(stream.refill()).1,
{
}

/// Every send of the model gets an answer that the contract of a send
/// admits: a stream that can hold no chunk accepts none.
pub proof fn send_is_a_sender_send(stream: StreamState, chunk: ChunkView)
    ensures
        stream.capacity == 0 ==> !stream.send(chunk).1,
{
}

/// A send is accepted exactly when the queue has room. An accepted chunk
/// goes behind everything that is still unread; a rejected one changes
/// nothing.
pub proof fn send_appends(stream: StreamState, chunk: ChunkView)
    requires
        stream.well_formed(),
        is_chunk(chunk),
    ensures
        stream.send(chunk).1 <==> stream.pending.len() < stream.capacity,
        stream.send(chunk).1 ==> stream.send(chunk).0.unread() == stream.unread() + chunk,
        !stream.send(chunk).1 ==> stream.send(chunk).0 == stream,
        stream.send(chunk).0.well_formed(),
        stream.send(chunk).0.decoder == stream.decoder,
{
    if stream.send(chunk).1 {
        stream.pending.lemma_flatten_push(chunk);
    }
}

/// A pull emits the oldest unread sample and leaves the others in their
/// order. When nothing is unread it emits silence and changes nothing: a
/// starved decoder neither skips ahead nor wraps around.
pub proof fn pull_emits_oldest(stream: StreamState)
    requires
        stream.well_formed(),
    ensures
        stream.unread().len() > 0 ==> stream.pull().1 == stream.unread()[0]
            && stream.pull().0.unread() == stream.unread().skip(1),
        stream.unread().len() == 0 ==> stream.pull().1 == SILENCE && stream.pull().0 == stream,
        stream.pull().0.well_formed(),
        stream.pull().0.capacity == stream.capacity,
{
    let after = stream.pull().0;
    assert forall|i: int| 0 <= i < after.pending.len() implies is_chunk(
        #[trigger] after.pending[i],
    ) by {
    }
}

/// Pulling `count` samples yields the unread samples in their order and,
/// once they are used up, silence.
pub proof fn pulls_drain_in_order(stream: StreamState, count: nat)
    requires
        stream.well_formed(),
    ensures
        stream.pull_many(count).1.len() == count,
        forall|k: int|
            0 <= k < count ==> #[trigger] stream.pull_many(count).1[k] == (if k
                < stream.unread().len() {
                stream.unread()[k]
            } else {
                SILENCE
            }),
        stream.pull_many(count).0.unread() == (if count <= stream.unread().len() {
            stream.unread().skip(count as int)
        } else {
            Seq::<Sample>::empty()
        }),
        stream.pull_many(count).0.well_formed(),
        stream.pull_many(count).0.capacity == stream.capacity,
    decreases count,
{
    if count > 0 {
        let fewer: nat = (count - 1) as nat;
        pulls_drain_in_order(stream, fewer);
        pull_emits_oldest(stream.pull_many(fewer).0);
    }
}

/// However sends and pulls alternate, nothing that was accepted is lost,
/// repeated or moved: what was unread at the start followed by what was
/// accepted since is what has been heard since followed by what is unread
/// now. Whoever sent a chunk, its samples are heard after all that was
/// accepted before it and before all that is accepted after it.
pub proof fn every_sample_once_in_order(stream: StreamState, steps: Seq<Step>)
    requires
        stream.well_formed(),
        forall|i: int| 0 <= i < steps.len() ==> (#[trigger] steps[i]).well_formed(),
    ensures
        stream.unread() + stream.accepted(steps) == stream.heard(steps) + stream.run(steps).unread(),
        stream.run(steps).well_formed(),
        stream.run(steps).capacity == stream.capacity,
    decreases steps.len(),
{
    if steps.len() > 0 {
        let earlier = steps.drop_last();
        every_sample_once_in_order(stream, earlier);
        let before = stream.run(earlier);
        match steps.last() {
            Step::Send(chunk) => {
                send_appends(before, chunk);
                let heard = stream.heard(earlier);
                assert((heard + before.unread()) + chunk =~= heard + (before.unread() + chunk));
            },
            Step::Pull => {
                pull_emits_oldest(before);
                starved_means_nothing_unread(before);
            },
        }
    }
}

/// A stream is starved exactly when no sample is unread.
pub proof fn starved_means_nothing_unread(stream: StreamState)
    requires
        stream.well_formed(),
    ensures
        stream.starved() <==> stream.unread().len() == 0,
{
}

/// How many of `chunks` a stream accepts: as many as it has room for.
pub open spec fn accepted_count(stream: StreamState, chunks: Seq<ChunkView>) -> nat {
    let room: int = stream.capacity - stream.pending.len();
    if chunks.len() <= room {
        chunks.len()
    } else {
        room as nat
    }
}

/// Of the chunks offered to a queue, exactly those are accepted that find
/// room: with `room` free places before the first send, the first `room`
/// sends succeed and every later one fails. The accepted chunks are then
/// unread behind what was unread before, in the order in which they were
/// sent.
pub proof fn sends_fill_to_capacity(stream: StreamState, chunks: Seq<ChunkView>)
    requires
        stream.well_formed(),
        forall|i: int| 0 <= i < chunks.len() ==> is_chunk(#[trigger] chunks[i]),
    ensures
        stream.send_all(chunks).1.len() == chunks.len(),
        forall|i: int|
            0 <= i < chunks.len() ==> (#[trigger] stream.send_all(chunks).1[i] <==> stream.pending.len()
                + i < stream.capacity),
        stream.send_all(chunks).0.pending == stream.pending + chunks.take(
            accepted_count(stream, chunks) as int,
        ),
        stream.send_all(chunks).0.unread() == stream.unread() + chunks.take(
            accepted_count(stream, chunks) as int,
        ).flatten(),
        stream.send_all(chunks).0.decoder == stream.decoder,
        stream.send_all(chunks).0.capacity == stream.capacity,
        stream.send_all(chunks).0.well_formed(),
    decreases chunks.len(),
{
    if chunks.len() > 0 {
        let front = chunks.drop_last();
        sends_fill_to_capacity(stream, front);
        let before = stream.send_all(front).0;
        send_appends(before, chunks.last());
        let taken: int = accepted_count(stream, front) as int;
        assert(front.take(taken) =~= chunks.take(taken));
        if before.send(chunks.last()).1 {
            assert(chunks.take(taken).push(chunks.last()) =~= chunks.take(taken + 1));
            chunks.take(taken).lemma_flatten_push(chunks.last());
        }
    }
}

/// On a new stream of capacity `capacity`, that many sends in a row
/// succeed and the one after them fails.
pub proof fn capacity_bound(capacity: nat, chunks: Seq<ChunkView>)
    requires
        chunks.len() == capacity + 1,
        forall|i: int| 0 <= i < chunks.len() ==> is_chunk(#[trigger] chunks[i]),
    ensures
        forall|i: int|
            0 <= i < capacity ==> #[trigger] StreamState::opened(capacity).send_all(chunks).1[i],
        !StreamState::opened(capacity).send_all(chunks).1[capacity as int],
{
    sends_fill_to_capacity(StreamState::opened(capacity), chunks);
}

/// What the decoder emits is what was accepted, in the order of the
/// sends: after `chunks` have been sent into a new stream that has room for
/// them all, sample `k` of the decoder is sample `k % 512` of chunk
/// `k / 512`, and after the last of them comes silence.
pub proof fn first_in_first_out(capacity: nat, chunks: Seq<ChunkView>, count: nat)
    requires
        chunks.len() <= capacity,
        forall|i: int| 0 <= i < chunks.len() ==> is_chunk(#[trigger] chunks[i]),
    ensures
        forall|k: int|
            0 <= k < count ==> #[trigger] StreamState::opened(capacity).send_all(chunks).0.pull_many(
                count,
            ).1[k] == (if k < CHUNK_LEN * chunks.len() {
                chunks[k / (CHUNK_LEN as int)][k % (CHUNK_LEN as int)]
            } else {
                SILENCE
            }),
{
    let opened = StreamState::opened(capacity);
    sends_fill_to_capacity(opened, chunks);
    assert(chunks.take(chunks.len() as int) =~= chunks);
    pulls_drain_in_order(opened.send_all(chunks).0, count);
    flatten_of_chunks(chunks);
}

/// The concatenation of whole chunks holds sample `k % 512` of chunk
/// `k / 512` at index `k`.
pub proof fn flatten_of_chunks(chunks: Seq<ChunkView>)
    requires
        forall|i: int| 0 <= i < chunks.len() ==> is_chunk(#[trigger] chunks[i]),
    ensures
        chunks.flatten().len() == CHUNK_LEN * chunks.len(),
        forall|k: int|
            0 <= k < CHUNK_LEN * chunks.len() ==> #[trigger] chunks.flatten()[k] == chunks[k / (
            CHUNK_LEN as int)][k % (CHUNK_LEN as int)],
    decreases chunks.len(),
{
    if chunks.len() > 0 {
        let front = chunks.drop_last();
        flatten_of_chunks(front);
        assert(front.push(chunks.last()) =~= chunks);
        front.lemma_flatten_push(chunks.last());
    }
}

/// A starved stream stays as it is under any number of pulls, and each of
/// them emits silence.
pub proof fn starved_pulls_change_nothing(stream: StreamState, count: nat)
    requires
        stream.well_formed(),
        stream.starved(),
    ensures
        stream.pull_many(count).0 == stream,
        stream.pull_many(count).1 == Seq::new(count, |k: int| SILENCE),
    decreases count,
{
    starved_means_nothing_unread(stream);
    if count > 0 {
        starved_pulls_change_nothing(stream, (count - 1) as nat);
        pull_emits_oldest(stream);
    }
}

/// A decoder on a stream that has never received a chunk emits silence,
/// however often it is pulled, and stays fresh.
pub proof fn silence_on_empty(capacity: nat, count: nat)
    ensures
        StreamState::opened(capacity).pull_many(count).0 == StreamState::opened(capacity),
        StreamState::opened(capacity).pull_many(count).1 == Seq::new(count, |k: int| SILENCE),
{
    starved_pulls_change_nothing(StreamState::opened(capacity), count);
}

/// However long a decoder has been starved, the first sample it emits once
/// a chunk has arrived is the first sample of that chunk, and the rest of
/// the chunk follows in order.
pub proof fn no_skip_after_starvation(
    stream: StreamState,
    starved: nat,
    chunk: ChunkView,
    count: nat,
)
    requires
        stream.well_formed(),
        stream.starved(),
        stream.capacity >= 1,
        is_chunk(chunk),
        count <= CHUNK_LEN,
    ensures
        stream.pull_many(starved).0.send(chunk).1,
        stream.pull_many(starved).0.send(chunk).0.pull().1 == chunk[0],
        stream.pull_many(starved).0.send(chunk).0.pull().0.decoder == (DecoderState {
            chunk,
            cursor: 1,
        }),
        stream.pull_many(starved).0.send(chunk).0.pull_many(count).1 == chunk.take(count as int),
{
    starved_pulls_change_nothing(stream, starved);
    starved_means_nothing_unread(stream);
    send_appends(stream, chunk);
    let sent = stream.send(chunk).0;
    pull_emits_oldest(sent);
    pulls_drain_in_order(sent, count);
}

/// A chunk of `first` throughout followed by a chunk of `second`
/// throughout comes out of a fresh decoder as 512 samples of `first` and
/// then 512 samples of `second`.
pub proof fn full_chunk_integrity(capacity: nat, first: Sample, second: Sample)
    requires
        capacity >= 2,
    ensures
        StreamState::opened(capacity).send(uniform_chunk(first)).1,
        StreamState::opened(capacity).send(uniform_chunk(first)).0.send(uniform_chunk(second)).1,
        StreamState::opened(capacity).send(uniform_chunk(first)).0.send(
            uniform_chunk(second),
        ).0.pull_many(2 * CHUNK_LEN as nat).1 == uniform_chunk(first) + uniform_chunk(second),
{
    let opened = StreamState::opened(capacity);
    send_appends(opened, uniform_chunk(first));
    let one = opened.send(uniform_chunk(first)).0;
    send_appends(one, uniform_chunk(second));
    let two = one.send(uniform_chunk(second)).0;
    pulls_drain_in_order(two, 2 * CHUNK_LEN as nat);
}

} // verus!
