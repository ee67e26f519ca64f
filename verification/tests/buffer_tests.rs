//! Ring buffer behaviour: bounded growth, FIFO order, exact reads.

use voxai::buffer::AudioBuffer;

#[test]
fn test_buffer_creation() {
    let buffer = AudioBuffer::new(1000);
    assert_eq!(buffer.capacity(), 1000);
    assert_eq!(buffer.len(), 0);
    assert!(buffer.is_empty());
}

#[test]
fn test_write_read() {
    let mut buffer = AudioBuffer::new(1000);

    // Write samples
    let samples: Vec<u32> = vec![1.0f32, 2.0, 3.0, 4.0, 5.0].into_iter().map(f32::to_bits).collect();
    let written = buffer.write(&samples);
    assert_eq!(written, 5);
    assert_eq!(buffer.len(), 5);

    // Read samples
    let mut read_buffer: Vec<u32> = vec![0; 5];
    let read = buffer.read(&mut read_buffer);
    assert_eq!(read, 5);
    assert_eq!(read_buffer, samples);
    assert_eq!(buffer.len(), 0);
}

#[test]
fn test_buffer_overflow() {
    let mut buffer = AudioBuffer::new(10);

    // Try to write more than capacity
    let samples = vec![1.0f32.to_bits(); 20];
    let written = buffer.write(&samples);

    // Should only write capacity amount
    assert!(written <= 10);
    assert_eq!(written, 10);
    assert_eq!(buffer.len(), 10);
}

#[test]
fn test_try_read_exact() {
    let mut buffer = AudioBuffer::new(1000);

    // Write 10 samples
    buffer.write(&vec![1.0f32.to_bits(); 10]);

    // Try to read exactly 5 samples - should succeed
    let result = buffer.try_read_exact(5);
    assert!(result.is_some());
    assert_eq!(result.unwrap().len(), 5);

    // Try to read exactly 10 samples - should fail (only 5 left)
    let result = buffer.try_read_exact(10);
    assert!(result.is_none());
}

#[test]
fn test_clear() {
    let mut buffer = AudioBuffer::new(1000);

    buffer.write(&vec![1.0f32.to_bits(); 100]);
    assert_eq!(buffer.len(), 100);

    buffer.clear();
    assert_eq!(buffer.len(), 0);
    assert!(buffer.is_empty());
}

#[test]
fn test_len_never_exceeds_capacity() {
    // write far more than fits, in several batches, across wrap-arounds
    let mut buffer = AudioBuffer::new(7);
    for round in 0..20u32 {
        buffer.write(&vec![round; 5]);
        assert!(buffer.len() <= buffer.capacity());
        let mut out = vec![0u32; 3];
        buffer.read(&mut out);
        assert!(buffer.len() <= buffer.capacity());
    }
}

#[test]
fn test_write_then_read_returns_written_sequence() {
    let mut buffer = AudioBuffer::new(64);
    let w: Vec<u32> = (100..150).collect();
    assert!(w.len() <= buffer.available());
    assert_eq!(buffer.write(&w), w.len());
    let mut out = vec![0u32; 50];
    assert_eq!(buffer.read(&mut out), 50);
    assert_eq!(out, w);
}

#[test]
fn test_write_read_in_order_across_wrap() {
    let mut buffer = AudioBuffer::new(8);
    buffer.write(&vec![1, 2, 3, 4, 5, 6]);
    let mut out = vec![0u32; 4];
    assert_eq!(buffer.read(&mut out), 4);
    assert_eq!(out, vec![1, 2, 3, 4]);
    // head has advanced; the next write wraps around the storage end
    buffer.write(&vec![7, 8, 9, 10]);
    let mut out2 = vec![0u32; 6];
    assert_eq!(buffer.read(&mut out2), 6);
    assert_eq!(out2, vec![5, 6, 7, 8, 9, 10]);
}

#[test]
fn test_try_read_exact_keeps_len_on_failure() {
    let mut buffer = AudioBuffer::new(100);
    buffer.write(&vec![3u32; 7]);
    let before = buffer.len();
    assert!(buffer.try_read_exact(8).is_none());
    assert_eq!(buffer.len(), before);
    let taken = buffer.try_read_exact(7).unwrap();
    assert_eq!(taken, vec![3u32; 7]);
    assert_eq!(buffer.len(), 0);
}

#[test]
fn test_available_counts_free_slots() {
    let mut buffer = AudioBuffer::with_default_capacity();
    assert_eq!(buffer.capacity(), 16000 * 5);
    assert_eq!(buffer.available(), 16000 * 5);
    buffer.write(&vec![0u32; 123]);
    assert_eq!(buffer.available(), 16000 * 5 - 123);
}

#[test]
fn test_default_buffer() {
    let buffer = AudioBuffer::default();
    assert_eq!(buffer.capacity(), voxai::buffer::DEFAULT_BUFFER_CAPACITY);
    assert!(buffer.is_empty());
}
