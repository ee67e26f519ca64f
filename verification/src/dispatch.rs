//! Dispatching chunks to the transcription collaborator with bounded
//! concurrency, and the pipeline lifecycle.
//!
//! The dispatcher decides, for each cut chunk and each completed
//! transcription, what runs next: at most `max_concurrent` units are in
//! flight, later chunks queue rather than drop, and a completed unit —
//! successful or not — frees its slot for the next queued chunk, so one
//! failure never blocks the stream. The surrounding runtime performs the
//! transcriptions and feeds completions back in.

use vstd::prelude::*;

verus! {

use crate::chunker::AudioChunk;
use crate::models::ModelSize;

/// Confidence reported for a transcription until the engine supplies its
/// own score: the bit encoding of the single-precision value 0.85.
pub const PLACEHOLDER_CONFIDENCE_BITS: u32 = 0x3F59999A;

/// One finished transcription, tagged with the chunk's sequence number
/// so consumers can reorder results that complete out of order.
pub struct TranscriptionResult {
    /// Transcribed text.
    pub text: String,
    /// When the result was produced.
    pub timestamp: std::time::Instant,
    /// Sequence number of the transcribed chunk, propagated unchanged.
    pub sequence: u64,
    /// Confidence score in [0, 1], carried as the bit encoding of a
    /// single-precision value.
    pub confidence: u32,
}

/// Pipeline configuration, read at start and never mutated after.
#[derive(Debug, Clone)]
pub struct PipelineConfig {
    /// Transcription model to use.
    pub model: ModelSize,
    /// Filter the stream on voice activity.
    pub enable_vad: bool,
    /// Run the noise-suppression stage.
    pub enable_noise_reduction: bool,
    /// Most transcriptions in flight at once.
    pub max_concurrent: usize,
    /// Chunk length in samples.
    pub chunk_size: usize,
    /// Overlap between consecutive chunks in samples.
    pub overlap_size: usize,
}

impl Default for PipelineConfig {
    /// Base model, both stages on, two concurrent transcriptions, 10 s
    /// chunks with 2 s overlap.
    fn default() -> (r: PipelineConfig)
        ensures
            r.model == ModelSize::Base,
            r.enable_vad,
            r.enable_noise_reduction,
            r.max_concurrent == 2,
            r.chunk_size == crate::chunker::CHUNK_SIZE_SAMPLES,
            r.overlap_size == crate::chunker::OVERLAP_SIZE_SAMPLES,
    {
        PipelineConfig {
            model: ModelSize::Base,
            enable_vad: true,
            enable_noise_reduction: true,
            max_concurrent: 2,
            chunk_size: crate::chunker::CHUNK_SIZE_SAMPLES,
            overlap_size: crate::chunker::OVERLAP_SIZE_SAMPLES,
        }
    }
}

/// Faults of the dispatcher and the pipeline lifecycle.
#[derive(Debug, Clone, Copy, PartialEq, Eq, Structural)]
pub enum DispatchError {
    ZeroConcurrency,
    AlreadyRunning,
}

/// Admission control for transcription work: a slot counter bounded by
/// `max_concurrent` and a queue of chunks waiting for a slot.
pub struct Dispatcher {
    max_concurrent: usize,
    in_flight: usize,
    queue: Vec<AudioChunk>,
}

impl Dispatcher {
    /// The configured concurrency bound.
    pub closed spec fn spec_max_concurrent(&self) -> int {
        self.max_concurrent as int
    }

    /// How many units are in flight now.
    pub closed spec fn spec_in_flight(&self) -> int {
        self.in_flight as int
    }

    /// The chunks waiting for a free slot, oldest first.
    pub closed spec fn spec_queue(&self) -> Seq<AudioChunk> {
        self.queue@
    }

    /// In-flight work never exceeds the bound, and nothing waits while a
    /// slot is free.
    pub closed spec fn wf(&self) -> bool {
        &&& 0 < self.max_concurrent
        &&& self.in_flight <= self.max_concurrent
        &&& (self.queue@.len() > 0 ==> self.in_flight == self.max_concurrent)
    }

    /// A dispatcher allowing `max_concurrent` transcriptions at once. A
    /// bound of zero could never run anything and is rejected.
    pub fn new(max_concurrent: usize) -> (r: Result<Dispatcher, DispatchError>)
        ensures
            r is Ok <==> max_concurrent > 0,
            r is Err ==> r == Err::<Dispatcher, DispatchError>(DispatchError::ZeroConcurrency),
            r is Ok ==> ({
                let d = r.unwrap();
                &&& d.wf()
                &&& d.spec_max_concurrent() == max_concurrent
                &&& d.spec_in_flight() == 0
                &&& d.spec_queue() == Seq::<AudioChunk>::empty()
            }),
    {
        if max_concurrent == 0 {
            Err(DispatchError::ZeroConcurrency)
        } else {
            Ok(Dispatcher { max_concurrent, in_flight: 0, queue: Vec::new() })
        }
    }

    /// Offer a chunk. If a slot is free it is taken and the chunk comes
    /// back to be started now; otherwise the chunk queues — beyond-limit
    /// submissions wait, they are never dropped.
    pub fn submit(&mut self, chunk: AudioChunk) -> (started: Option<AudioChunk>)
        requires
            old(self).wf(),
        ensures
            final(self).wf(),
            final(self).spec_max_concurrent() == old(self).spec_max_concurrent(),
            old(self).spec_in_flight() < old(self).spec_max_concurrent() ==> ({
                &&& started == Some(chunk)
                &&& final(self).spec_in_flight() == old(self).spec_in_flight() + 1
                &&& final(self).spec_queue() == old(self).spec_queue()
            }),
            old(self).spec_in_flight() == old(self).spec_max_concurrent() ==> ({
                &&& started is None
                &&& final(self).spec_in_flight() == old(self).spec_in_flight()
                &&& final(self).spec_queue() == old(self).spec_queue().push(chunk)
            }),
    {
        if self.in_flight < self.max_concurrent {
            self.in_flight = self.in_flight + 1;
            Some(chunk)
        } else {
            self.queue.push(chunk);
            None
        }
    }

    /// Record that one in-flight transcription finished, successfully or
    /// not. The oldest queued chunk, if any, takes over the freed slot
    /// and comes back to be started now; otherwise the slot stays free.
    pub fn complete(&mut self) -> (next: Option<AudioChunk>)
        requires
            old(self).wf(),
            old(self).spec_in_flight() > 0,
        ensures
            final(self).wf(),
            final(self).spec_max_concurrent() == old(self).spec_max_concurrent(),
            old(self).spec_queue().len() > 0 ==> ({
                &&& next == Some(old(self).spec_queue()[0])
                &&& final(self).spec_queue() == old(self).spec_queue().skip(1)
                &&& final(self).spec_in_flight() == old(self).spec_in_flight()
            }),
            old(self).spec_queue().len() == 0 ==> ({
                &&& next is None
                &&& final(self).spec_in_flight() == old(self).spec_in_flight() - 1
                &&& final(self).spec_queue() == old(self).spec_queue()
            }),
            // exactly the completion step, whatever the finished unit's
            // outcome was
            forall|o: Result<Seq<char>, Seq<char>>|
                (final(self).spec_in_flight(), final(self).spec_queue(), next)
                    == #[trigger] completion_step(
                    old(self).spec_in_flight(),
                    old(self).spec_queue(),
                    o,
                ),
    {
        if self.queue.len() > 0 {
            let next = self.queue.remove(0);
            Some(next)
        } else {
            self.in_flight = self.in_flight - 1;
            None
        }
    }

    /// How many units are in flight now.
    pub fn in_flight(&self) -> (r: usize)
        ensures
            r == self.spec_in_flight(),
    {
        self.in_flight
    }

    /// How many chunks are waiting for a slot.
    pub fn queued(&self) -> (r: usize)
        ensures
            r == self.spec_queue().len(),
    {
        self.queue.len()
    }
}

/// Turn one transcription outcome into what the result channel carries:
/// a success becomes exactly one result with the chunk's sequence number
/// propagated, a failure is dropped — reported to the caller as `None`,
/// never retried and never poisoning the pipeline.
pub fn settle_outcome(sequence: u64, confidence: u32, outcome: Result<String, String>) -> (r:
    Option<TranscriptionResult>)
    ensures
        r is Some <==> outcome is Ok,
        r is Some ==> ({
            let res = r.unwrap();
            &&& res.text == outcome.unwrap()
            &&& res.sequence == sequence
            &&& res.confidence == confidence
        }),
{
    match outcome {
        Ok(text) => Some(
            TranscriptionResult {
                text,
                timestamp: crate::clock::now(),
                sequence,
                confidence,
            },
        ),
        Err(_) => None,
    }
}

/// Lifecycle of the pipeline: constructed stopped, started at most once
/// at a time, stopped again when shutting down.
pub struct PipelineLifecycle {
    running: bool,
}

impl PipelineLifecycle {
    /// Whether the pipeline is running.
    pub closed spec fn spec_running(&self) -> bool {
        self.running
    }

    /// A stopped pipeline.
    pub fn new() -> (r: PipelineLifecycle)
        ensures
            !r.spec_running(),
    {
        PipelineLifecycle { running: false }
    }

    /// Move to running. Starting twice without a stop in between is
    /// refused.
    pub fn start(&mut self) -> (r: Result<(), DispatchError>)
        ensures
            r is Ok <==> !old(self).spec_running(),
            r is Err ==> r == Err::<(), DispatchError>(DispatchError::AlreadyRunning),
            final(self).spec_running(),
    {
        if self.running {
            Err(DispatchError::AlreadyRunning)
        } else {
            self.running = true;
            Ok(())
        }
    }

    /// Move to stopped; stopping a stopped pipeline is a no-op.
    pub fn stop(&mut self)
        ensures
            !final(self).spec_running(),
    {
        self.running = false;
    }

    /// Whether the pipeline is running.
    pub fn is_running(&self) -> (r: bool)
        ensures
            r == self.spec_running(),
    {
        self.running
    }
}

/// The dispatcher's completion step, written with the finished unit's
/// outcome as an input: the freed slot goes to the oldest queued chunk,
/// or stays free, and the outcome is never consulted. `complete` ensures
/// exactly the two branches of this function.
pub open spec fn completion_step(
    in_flight: int,
    queue: Seq<AudioChunk>,
    outcome: Result<Seq<char>, Seq<char>>,
) -> (int, Seq<AudioChunk>, Option<AudioChunk>) {
    if queue.len() > 0 {
        (in_flight, queue.skip(1), Some(queue[0]))
    } else {
        (in_flight - 1, queue, None)
    }
}

/// A failing transcription for one chunk does not keep the next chunk
/// from completing and being delivered: completion acts on the
/// dispatcher state exactly the same way for a failure as for a success,
/// so the chunk queued behind the failed one starts either way — and by
/// the contract of `settle_outcome`, its own success is then delivered
/// as exactly one result while only the failed chunk's result is
/// withheld.
pub proof fn lemma_failure_does_not_block(
    in_flight: int,
    queue: Seq<AudioChunk>,
    failure: Result<Seq<char>, Seq<char>>,
    success: Result<Seq<char>, Seq<char>>,
)
    requires
        queue.len() > 0,
        failure is Err,
        success is Ok,
    ensures
        completion_step(in_flight, queue, failure) == completion_step(in_flight, queue, success),
        completion_step(in_flight, queue, failure).2 == Some(queue[0]),
{
}

} // verus!
