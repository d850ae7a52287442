use audio_stream::{AudioStreamDecoder, Sample, StreamChunk, CHUNK_LEN, SILENCE};
use crossbeam_queue::ArrayQueue;
use std::sync::Arc;

fn chunk_of(value: f32) -> StreamChunk {
    [value.to_bits(); 512]
}

fn next_sample(decoder: &mut AudioStreamDecoder) -> Option<f32> {
    decoder.next().map(f32::from_bits)
}

fn take(decoder: &mut AudioStreamDecoder, count: usize) -> Vec<f32> {
    let mut samples = Vec::with_capacity(count);
    for _ in 0..count {
        samples.push(next_sample(decoder).unwrap());
    }
    samples
}

#[test]
fn receives_stream() {
    // Create a new stream and associated decoder.
    let stream = Arc::new(ArrayQueue::new(2));
    let mut decoder = AudioStreamDecoder::new(Arc::clone(&stream), 1, 44100);

    // Push a chunk of all ones, then all halves.
    stream.push(chunk_of(1.0)).unwrap();
    stream.push(chunk_of(0.5)).unwrap();

    // Pull both chunks out of the decoder.
    let samples: Vec<f32> = take(&mut decoder, 512 * 2);
    let (all_ones, all_halves) = samples.split_at(512);

    // Check that data is intact.
    assert!(all_ones.iter().all(|&x| x == 1.0));
    assert!(all_halves.iter().all(|&x| x == 0.5));
}

#[test]
fn empty_stream() {
    // Create a new stream and associated decoder.
    let stream = Arc::new(ArrayQueue::new(1));
    let mut decoder = AudioStreamDecoder::new(Arc::clone(&stream), 1, 44100);

    // If there is nothing in the stream, it should return silence.
    assert_eq!(
        next_sample(&mut decoder),
        Some(0.0),
        "Empty decoder stream did not return silence."
    );

    // Send something in the stream.
    stream.push(chunk_of(1.0)).unwrap();

    assert_eq!(
        next_sample(&mut decoder),
        Some(1.0),
        "Decoder stream did not receiver new audio."
    );
}

#[test]
fn index() {
    // Create a new stream and associated decoder.
    let stream = Arc::new(ArrayQueue::new(1));
    let mut decoder = AudioStreamDecoder::new(Arc::clone(&stream), 1, 44100);

    let original_index = decoder.cursor();

    // The index starts at the length of a chunk, so that the decoder pops a new chunk
    // from the stream the next time it is pulled.
    assert_eq!(
        original_index, 512,
        "Decoder stream original index is not the length of `StreamChunk`."
    );

    decoder.next();

    // If the index moved on an empty stream, it could wrap around to 0 and replay audio.
    assert_eq!(
        decoder.cursor(),
        original_index,
        "Decoder stream index incremented even while empty."
    );

    stream.push(chunk_of(0.0)).unwrap();
    decoder.next();

    assert_eq!(
        decoder.cursor(),
        1,
        "Decoder stream index did not change after receiving audio."
    );
}

#[test]
fn silence_is_positive_zero() {
    assert_eq!(SILENCE, 0.0f32.to_bits());
    assert_eq!(f32::from_bits(SILENCE), 0.0);
    assert!(f32::from_bits(SILENCE).is_sign_positive());
    assert_eq!(CHUNK_LEN, 512);
}

#[test]
fn starved_decoder_stays_silent_and_in_place() {
    let stream: Arc<ArrayQueue<StreamChunk>> = Arc::new(ArrayQueue::new(3));
    let mut decoder = AudioStreamDecoder::new(Arc::clone(&stream), 2, 48000);
    for _ in 0..2000 {
        assert_eq!(decoder.next(), Some(SILENCE));
        assert_eq!(decoder.cursor(), CHUNK_LEN);
    }
}

#[test]
fn first_sample_after_starvation_is_index_zero() {
    let stream = Arc::new(ArrayQueue::new(1));
    let mut decoder = AudioStreamDecoder::new(Arc::clone(&stream), 1, 44100);
    for _ in 0..777 {
        assert_eq!(decoder.next(), Some(SILENCE));
    }
    let mut ramp: StreamChunk = [0; 512];
    for (i, slot) in ramp.iter_mut().enumerate() {
        *slot = 1000 + i as Sample;
    }
    stream.push(ramp).unwrap();
    for i in 0..512 {
        assert_eq!(decoder.next(), Some(1000 + i as Sample));
        assert_eq!(decoder.cursor(), i + 1);
    }
    // The chunk is used up and nothing else has arrived.
    assert_eq!(decoder.next(), Some(SILENCE));
    assert_eq!(decoder.cursor(), 512);
}

#[test]
fn chunks_come_out_in_the_order_pushed() {
    let stream = Arc::new(ArrayQueue::new(4));
    let mut decoder = AudioStreamDecoder::new(Arc::clone(&stream), 1, 44100);
    for value in [3u32, 1, 4, 1] {
        stream.push([value; 512]).unwrap();
    }
    for value in [3u32, 1, 4, 1] {
        for _ in 0..512 {
            assert_eq!(decoder.next(), Some(value));
        }
    }
    assert_eq!(decoder.next(), Some(SILENCE));
}

#[test]
fn advance_uses_a_refill_only_when_exhausted() {
    let stream: Arc<ArrayQueue<StreamChunk>> = Arc::new(ArrayQueue::new(1));
    let mut decoder = AudioStreamDecoder::new(stream, 1, 44100);

    // Exhausted and nothing offered: silence, no movement.
    assert_eq!(decoder.advance(None), SILENCE);
    assert_eq!(decoder.cursor(), 512);

    // Exhausted and a chunk offered: its first sample, cursor at 1.
    assert_eq!(decoder.advance(Some([7; 512])), 7);
    assert_eq!(decoder.cursor(), 1);

    // Samples left: the offer is not used.
    assert_eq!(decoder.advance(Some([9; 512])), 7);
    assert_eq!(decoder.cursor(), 2);
    for _ in 2..512 {
        assert_eq!(decoder.advance(None), 7);
    }
    assert_eq!(decoder.cursor(), 512);
    assert_eq!(decoder.advance(None), SILENCE);
}

#[test]
fn decoder_reports_open_ended_stream() {
    let stream: Arc<ArrayQueue<StreamChunk>> = Arc::new(ArrayQueue::new(1));
    let mut decoder = AudioStreamDecoder::new(stream, 6, 96000);
    assert_eq!(decoder.current_frame_len(), None);
    assert_eq!(decoder.total_duration(), None);
    assert_eq!(decoder.channels(), 6);
    assert_eq!(decoder.sample_rate(), 96000);
    decoder.next();
    assert_eq!(decoder.channels(), 6);
    assert_eq!(decoder.sample_rate(), 96000);
}
