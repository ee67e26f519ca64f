//! Core of a real-time speech transcription pipeline.
//!
//! The library turns an unbounded stream of captured audio samples into
//! bounded, overlapping chunks ready for transcription: a fixed-capacity
//! ring buffer hands samples from the capture side to the processing side,
//! a normalizer plans sample-rate conversion, a frame-based noise
//! suppressor and a hysteresis voice-activity filter screen the stream, and
//! a chunker/dispatcher pair cuts it into numbered chunks and bounds the
//! number of in-flight transcriptions.
//!
//! Audio samples are carried as opaque 32-bit words (the bit encoding of
//! one single-precision sample); the pipeline moves samples but never
//! interprets their numeric value, so every stage here is verified over
//! plain sequences of words.

pub mod buffer;
pub mod chunker;
pub mod clock;
pub mod config;
pub mod dispatch;
pub mod formatter;
pub mod hotkeys;
pub mod language;
pub mod menu;
pub mod models;
pub mod noise;
pub mod normalize;
pub mod paths;
pub mod settings;
pub mod strutil;
pub mod vad;
pub mod whisper;
