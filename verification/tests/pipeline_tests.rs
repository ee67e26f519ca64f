//! Chunking and dispatching: overlap, sequence numbers, bounded
//! concurrency and failure isolation.

use voxai::chunker::{AudioChunk, Chunker, CHUNK_SIZE_SAMPLES, OVERLAP_SIZE_SAMPLES};
use voxai::dispatch::{
    settle_outcome, Dispatcher, PipelineConfig, PipelineLifecycle, PLACEHOLDER_CONFIDENCE_BITS,
};
use voxai::models::ModelSize;

#[test]
fn test_chunk_creation() {
    let chunk = AudioChunk {
        samples: vec![0u32; 1000],
        timestamp: std::time::Instant::now(),
        sequence: 42,
    };

    assert_eq!(chunk.samples.len(), 1000);
    assert_eq!(chunk.sequence, 42);
}

#[test]
fn test_pipeline_config_default() {
    let config = PipelineConfig::default();
    assert_eq!(config.model, ModelSize::Base);
    assert!(config.enable_vad);
    assert!(config.enable_noise_reduction);
    assert_eq!(config.max_concurrent, 2);
    assert_eq!(config.chunk_size, CHUNK_SIZE_SAMPLES);
    assert_eq!(config.overlap_size, OVERLAP_SIZE_SAMPLES);
}

#[test]
fn test_chunker_rejects_bad_sizes() {
    assert!(Chunker::new(0, 0).is_err());
    assert!(Chunker::new(10, 10).is_err());
    assert!(Chunker::new(10, 11).is_err());
    assert!(Chunker::new(10, 9).is_ok());
}

#[test]
fn test_chunker_emits_at_chunk_length() {
    let mut chunker = Chunker::new(10, 2).unwrap();
    assert!(chunker.push(&(0..9u32).collect()).is_empty());
    assert_eq!(chunker.buffered_len(), 9);
    let chunks = chunker.push(&vec![9u32]);
    assert_eq!(chunks.len(), 1);
    assert_eq!(chunks[0].samples, (0..10u32).collect::<Vec<u32>>());
    assert_eq!(chunks[0].sequence, 0);
    // the last `overlap` samples are retained for the next chunk
    assert_eq!(chunker.buffered_len(), 2);
}

#[test]
fn test_one_batch_yields_every_complete_chunk() {
    // a single batch holding several chunks' worth of samples drains
    // into all of them at once, with consecutive sequence numbers
    let mut chunker = Chunker::new(10, 3).unwrap();
    let chunks = chunker.push(&(0..24u32).collect());
    assert_eq!(chunks.len(), 3);
    assert_eq!(chunks[0].samples, (0..10u32).collect::<Vec<u32>>());
    assert_eq!(chunks[1].samples, (7..17u32).collect::<Vec<u32>>());
    assert_eq!(chunks[2].samples, (14..24u32).collect::<Vec<u32>>());
    for (i, c) in chunks.iter().enumerate() {
        assert_eq!(c.sequence, i as u64);
    }
    // what is left is shorter than one chunk: the trailing overlap
    assert_eq!(chunker.buffered_len(), 3);
}

#[test]
fn test_chunk_overlap_relation() {
    // chunk N+1 begins with chunk N's trailing overlap
    let mut chunker = Chunker::new(10, 3).unwrap();
    let mut chunks = Vec::new();
    let mut next: u32 = 0;
    while chunks.len() < 3 {
        let batch: Vec<u32> = (next..next + 4).collect();
        next += 4;
        chunks.extend(chunker.push(&batch));
    }
    for k in 1..chunks.len() {
        assert_eq!(chunks[k].samples[..3], chunks[k - 1].samples[7..10]);
        assert_eq!(chunks[k].sequence, chunks[k - 1].sequence + 1);
    }
}

#[test]
fn test_twelve_seconds_yield_one_chunk() {
    // 12 s of constant samples at 16 kHz through a 10 s / 2 s chunker:
    // exactly one chunk of 160,000 samples
    let mut chunker = Chunker::with_default_sizes();
    let amp = 0.25f32.to_bits();
    let batch = vec![amp; 1600]; // 100 ms
    let mut chunks = Vec::new();
    for _ in 0..120 {
        chunks.extend(chunker.push(&batch));
    }
    assert_eq!(chunks.len(), 1);
    assert_eq!(chunks[0].samples.len(), 160_000);
    assert_eq!(chunks[0].sequence, 0);
}

#[test]
fn test_twentytwo_seconds_yield_two_overlapping_chunks() {
    let mut chunker = Chunker::with_default_sizes();
    let mut chunks = Vec::new();
    let mut t: u32 = 0;
    for _ in 0..220 {
        let batch: Vec<u32> = (t..t + 1600).collect(); // 100 ms
        t += 1600;
        chunks.extend(chunker.push(&batch));
    }
    assert_eq!(chunks.len(), 2);
    assert_eq!(chunks[0].samples.len(), 160_000);
    assert_eq!(chunks[1].samples.len(), 160_000);
    // first 2 s of chunk 1 equal last 2 s of chunk 0
    assert_eq!(chunks[1].samples[..32_000], chunks[0].samples[128_000..160_000]);
}

#[test]
fn test_twentytwo_seconds_in_one_batch_yield_two_chunks() {
    // 22 s of constant samples at 16 kHz fed as one batch through a
    // 10 s / 2 s chunker: two chunks come out of the single feed
    let mut chunker = Chunker::with_default_sizes();
    let amp = 0.1f32.to_bits();
    let chunks = chunker.push(&vec![amp; 352_000]);
    assert_eq!(chunks.len(), 2);
    assert_eq!(chunks[0].sequence, 0);
    assert_eq!(chunks[1].sequence, 1);
    assert_eq!(chunks[0].samples.len(), 160_000);
    assert_eq!(chunks[1].samples.len(), 160_000);
    assert_eq!(chunks[1].samples[..32_000], chunks[0].samples[128_000..160_000]);
    assert!(chunks.iter().all(|c| c.samples.iter().all(|&w| w == amp)));
    // the remainder is below one chunk length
    assert!(chunker.buffered_len() < 160_000);
}

#[test]
fn test_dispatcher_bounds_concurrency() {
    let mut d = Dispatcher::new(2).unwrap();
    let mk = |seq: u64| AudioChunk {
        samples: vec![0u32; 4],
        timestamp: std::time::Instant::now(),
        sequence: seq,
    };
    assert!(d.submit(mk(0)).is_some());
    assert!(d.submit(mk(1)).is_some());
    assert_eq!(d.in_flight(), 2);
    // beyond the limit, submissions queue rather than drop
    assert!(d.submit(mk(2)).is_none());
    assert_eq!(d.queued(), 1);
    // a completion hands the slot to the queued chunk
    let next = d.complete().expect("queued chunk starts");
    assert_eq!(next.sequence, 2);
    assert_eq!(d.in_flight(), 2);
    assert_eq!(d.queued(), 0);
    assert!(d.complete().is_none());
    assert_eq!(d.in_flight(), 1);
}

#[test]
fn test_dispatcher_rejects_zero_concurrency() {
    assert!(Dispatcher::new(0).is_err());
}

#[test]
fn test_failed_chunk_does_not_block_next() {
    // chunk K fails, chunk K+1 still completes and is delivered
    let mut d = Dispatcher::new(1).unwrap();
    let mk = |seq: u64| AudioChunk {
        samples: vec![0u32; 4],
        timestamp: std::time::Instant::now(),
        sequence: seq,
    };
    let started_k = d.submit(mk(7)).expect("first chunk starts");
    assert_eq!(started_k.sequence, 7);
    assert!(d.submit(mk(8)).is_none()); // K+1 queues

    // K's transcription fails: nothing is delivered for it …
    let k_result = settle_outcome(7, PLACEHOLDER_CONFIDENCE_BITS, Err("engine busy".to_string()));
    assert!(k_result.is_none());
    // … but its completion starts K+1 all the same
    let started_k1 = d.complete().expect("next chunk starts after a failure");
    assert_eq!(started_k1.sequence, 8);

    // K+1 succeeds and exactly one result with its sequence is delivered
    let k1_result =
        settle_outcome(8, PLACEHOLDER_CONFIDENCE_BITS, Ok("hello world".to_string())).unwrap();
    assert_eq!(k1_result.sequence, 8);
    assert_eq!(k1_result.text, "hello world");
    assert_eq!(f32::from_bits(k1_result.confidence), 0.85);
}

#[test]
fn test_lifecycle_start_stop() {
    let mut p = PipelineLifecycle::new();
    assert!(!p.is_running());
    assert!(p.start().is_ok());
    assert!(p.is_running());
    // starting twice is refused
    assert!(p.start().is_err());
    p.stop();
    assert!(!p.is_running());
    // stopping again is a no-op
    p.stop();
    assert!(!p.is_running());
    assert!(p.start().is_ok());
}
