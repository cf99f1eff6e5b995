use realtime_client::recorder::{PlaybackBuffer, RecorderBuffers, BUFFER_SIZE};

#[test]
fn pairs_are_averaged_and_chunks_taken() {
    let mut buffers = RecorderBuffers::new();
    // an odd sample waits for its pair across calls
    assert!(buffers.push_samples(&[10]).is_none());
    assert!(buffers.push_samples(&[20, -3]).is_none());
    let chunk_input: Vec<i16> = vec![-4; 2 * BUFFER_SIZE];
    let chunk = buffers.push_samples(&chunk_input).unwrap();
    assert_eq!(chunk.len(), BUFFER_SIZE);
    assert_eq!(chunk[0], 15);
    // -3 and -4 average to -3 (toward zero)
    assert_eq!(chunk[1], -3);
    assert!(chunk[2..].iter().all(|&s| s == -4));
}

#[test]
fn one_chunk_per_call() {
    let mut buffers = RecorderBuffers::new();
    let input: Vec<i16> = vec![1; 4 * BUFFER_SIZE + 2];
    let first = buffers.push_samples(&input).unwrap();
    assert_eq!(first.len(), BUFFER_SIZE);
    let second = buffers.push_samples(&[]).unwrap();
    assert_eq!(second.len(), BUFFER_SIZE);
    assert!(buffers.push_samples(&[]).is_none());
}

#[test]
fn playback_serves_samples_then_silence() {
    let mut playback = PlaybackBuffer::new();
    playback.extend(&[5, -6]);
    assert_eq!(playback.len(), 2);
    assert_eq!(playback.next_sample(), 5);
    assert_eq!(playback.next_sample(), -6);
    assert_eq!(playback.next_sample(), 0);
    assert_eq!(playback.len(), 0);
}
