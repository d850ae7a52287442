use audio_stream::{AudioStreamSender, StreamChunk};
use crossbeam_queue::ArrayQueue;
use std::sync::Arc;

fn chunk_of(value: f32) -> StreamChunk {
    [value.to_bits(); 512]
}

#[test]
fn send() {
    // Create sender with capacity of 2.
    let sender = AudioStreamSender::new(Arc::new(ArrayQueue::new(2)));

    // First two chunks should succeed.
    assert!(sender.send(chunk_of(1.0)));
    assert!(sender.send(chunk_of(1.0)));

    // Third chunk should fail, not enough capacity!
    assert!(!sender.send(chunk_of(1.0)));
}

#[test]
fn clone() {
    let sender = AudioStreamSender::new(Arc::new(ArrayQueue::new(1)));
    let sender_clone = sender.clone();

    assert!(
        sender.shares_queue_with(&sender_clone),
        "Cloned audio stream sender does not share the same underlying memory."
    );
}

#[test]
fn senders_on_different_queues_do_not_share() {
    let left = AudioStreamSender::new(Arc::new(ArrayQueue::new(1)));
    let right = AudioStreamSender::new(Arc::new(ArrayQueue::new(1)));
    assert!(!left.shares_queue_with(&right));
    assert!(left.shares_queue_with(&left));
}

#[test]
fn send_puts_the_chunk_into_the_queue() {
    let queue = Arc::new(ArrayQueue::new(2));
    let sender = AudioStreamSender::new(Arc::clone(&queue));
    assert!(sender.send([11; 512]));
    assert!(sender.send([22; 512]));
    assert_eq!(queue.pop(), Some([11; 512]));
    assert_eq!(queue.pop(), Some([22; 512]));
    assert_eq!(queue.pop(), None);
    // Room again after the pops.
    assert!(sender.send([33; 512]));
}

#[test]
fn rejected_chunk_is_dropped() {
    let queue = Arc::new(ArrayQueue::new(1));
    let sender = AudioStreamSender::new(Arc::clone(&queue));
    assert!(sender.send([1; 512]));
    assert!(!sender.send([2; 512]));
    assert_eq!(queue.pop(), Some([1; 512]));
    assert_eq!(queue.pop(), None);
}
