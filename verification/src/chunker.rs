//! Cutting the normalized sample stream into bounded, overlapping chunks.
//!
//! The chunker accumulates samples; whenever the accumulated samples
//! reach the configured chunk length, it emits the first chunk-length
//! samples as an `AudioChunk` with the next monotonic sequence number
//! and retains the trailing overlap as the seed of the next chunk, so
//! that no word is cut at a chunk boundary. One feed emits every chunk
//! the accumulated samples complete, however large the batch.

use vstd::prelude::*;

verus! {

use crate::buffer::Sample;

/// Default chunk length: 10 seconds at 16 kHz.
pub const CHUNK_SIZE_SAMPLES: usize = 16000 * 10;

/// Default overlap between consecutive chunks: 2 seconds at 16 kHz.
pub const OVERLAP_SIZE_SAMPLES: usize = 16000 * 2;

/// A fixed-duration span of audio handed to transcription as one unit.
/// Immutable once created.
pub struct AudioChunk {
    /// The chunk's samples (mono, target rate).
    pub samples: Vec<Sample>,
    /// When the chunk was cut.
    pub timestamp: std::time::Instant,
    /// Monotonic sequence number, starting at 0 and never reused.
    pub sequence: u64,
}

/// Rejected chunking configuration: the overlap must be strictly shorter
/// than the chunk, and a chunk cannot be empty.
#[derive(Debug, Clone, Copy, PartialEq, Eq, Structural)]
pub enum ChunkerError {
    InvalidSizes,
}

/// Every chunk the accumulated samples complete, in order, with what
/// stays buffered afterwards: while at least `chunk_size` samples
/// remain, the first `chunk_size` of them form the next chunk and
/// everything before that chunk's trailing overlap is discarded. The
/// remainder, shorter than one chunk, stays buffered.
pub open spec fn chunker_drain(buf: Seq<Sample>, chunk_size: int, overlap: int) -> (
    Seq<Sample>,
    Seq<Seq<Sample>>,
)
    decreases buf.len(),
    when 0 <= overlap < chunk_size
{
    if buf.len() < chunk_size {
        (buf, Seq::<Seq<Sample>>::empty())
    } else {
        let chunk = buf.take(chunk_size);
        let next = chunker_drain(buf.skip(chunk_size - overlap), chunk_size, overlap);
        (next.0, seq![chunk] + next.1)
    }
}

/// What one batch of samples does to the accumulated buffer: the batch
/// joins the buffer and every complete chunk is emitted.
pub open spec fn chunker_step(buf: Seq<Sample>, batch: Seq<Sample>, chunk_size: int, overlap: int) -> (
    Seq<Sample>,
    Seq<Seq<Sample>>,
) {
    chunker_drain(buf + batch, chunk_size, overlap)
}

/// Accumulates samples and cuts overlapping chunks.
pub struct Chunker {
    buffer: Vec<Sample>,
    next_sequence: u64,
    chunk_size: usize,
    overlap_size: usize,
}

impl Chunker {
    /// The samples buffered towards the next chunk.
    pub closed spec fn spec_buffer(&self) -> Seq<Sample> {
        self.buffer@
    }

    /// Sequence number the next emitted chunk will carry.
    pub closed spec fn spec_next_sequence(&self) -> u64 {
        self.next_sequence
    }

    /// Configured chunk length in samples.
    pub closed spec fn spec_chunk_size(&self) -> int {
        self.chunk_size as int
    }

    /// Configured overlap length in samples.
    pub closed spec fn spec_overlap_size(&self) -> int {
        self.overlap_size as int
    }

    /// The overlap is strictly shorter than the chunk, which is nonempty.
    pub closed spec fn wf(&self) -> bool {
        0 < self.chunk_size && self.overlap_size < self.chunk_size
    }

    /// Create a chunker; sizes are in samples. A configuration whose
    /// overlap does not fit strictly inside one chunk is rejected.
    pub fn new(chunk_size: usize, overlap_size: usize) -> (r: Result<Chunker, ChunkerError>)
        ensures
            r is Ok <==> 0 < chunk_size && overlap_size < chunk_size,
            r is Ok ==> ({
                let c = r.unwrap();
                &&& c.wf()
                &&& c.spec_buffer() == Seq::<Sample>::empty()
                &&& c.spec_next_sequence() == 0
                &&& c.spec_chunk_size() == chunk_size
                &&& c.spec_overlap_size() == overlap_size
            }),
    {
        if chunk_size == 0 || overlap_size >= chunk_size {
            Err(ChunkerError::InvalidSizes)
        } else {
            Ok(Chunker { buffer: Vec::new(), next_sequence: 0, chunk_size, overlap_size })
        }
    }

    /// Create a chunker with the default 10 s chunk and 2 s overlap.
    pub fn with_default_sizes() -> (r: Chunker)
        ensures
            r.wf(),
            r.spec_buffer() == Seq::<Sample>::empty(),
            r.spec_next_sequence() == 0,
            r.spec_chunk_size() == CHUNK_SIZE_SAMPLES,
            r.spec_overlap_size() == OVERLAP_SIZE_SAMPLES,
    {
        Chunker {
            buffer: Vec::new(),
            next_sequence: 0,
            chunk_size: CHUNK_SIZE_SAMPLES,
            overlap_size: OVERLAP_SIZE_SAMPLES,
        }
    }

    /// Sequence number the next emitted chunk will carry.
    pub fn next_sequence(&self) -> (r: u64)
        ensures
            r == self.spec_next_sequence(),
    {
        self.next_sequence
    }

    /// Number of samples buffered towards the next chunk.
    pub fn buffered_len(&self) -> (r: usize)
        ensures
            r == self.spec_buffer().len(),
    {
        self.buffer.len()
    }

    /// Feed one batch of samples and emit every chunk the accumulated
    /// samples complete, in order, under consecutive sequence numbers;
    /// what is left — always shorter than one chunk — stays buffered.
    /// Exactly `chunker_step` on the buffered sequence.
    #[verifier::loop_isolation(false)]
    pub fn push(&mut self, samples: &Vec<Sample>) -> (r: Vec<AudioChunk>)
        requires
            old(self).wf(),
            old(self).spec_next_sequence() + old(self).spec_buffer().len() + samples@.len()
                <= u64::MAX,
        ensures
            final(self).wf(),
            final(self).spec_chunk_size() == old(self).spec_chunk_size(),
            final(self).spec_overlap_size() == old(self).spec_overlap_size(),
            ({
                let (kept, emitted) = chunker_step(
                    old(self).spec_buffer(),
                    samples@,
                    old(self).spec_chunk_size(),
                    old(self).spec_overlap_size(),
                );
                &&& final(self).spec_buffer() == kept
                &&& kept.len() < old(self).spec_chunk_size()
                &&& r@.len() == emitted.len()
                &&& (forall|i: int|
                    0 <= i < r@.len() ==> (#[trigger] r@[i]).samples@ == emitted[i]
                        && r@[i].sequence == old(self).spec_next_sequence() + i)
                &&& final(self).spec_next_sequence() == old(self).spec_next_sequence()
                    + emitted.len()
            }),
    {
        self.buffer.extend_from_slice(samples.as_slice());
        let ghost cs = self.chunk_size as int;
        let ghost ov = self.overlap_size as int;
        let ghost combined = self.buffer@;
        let ghost fin = chunker_drain(combined, cs, ov).0;
        let ghost all = chunker_drain(combined, cs, ov).1;
        let ghost seq0 = old(self).spec_next_sequence();
        let mut out: Vec<AudioChunk> = Vec::new();
        proof {
            assert(all.skip(0) =~= all);
        }
        while self.buffer.len() >= self.chunk_size
            invariant
                self.chunk_size == old(self).chunk_size,
                self.overlap_size == old(self).overlap_size,
                chunker_drain(self.buffer@, cs, ov).0 == fin,
                chunker_drain(self.buffer@, cs, ov).1 == all.skip(out@.len() as int),
                out@.len() <= all.len(),
                forall|i: int|
                    0 <= i < out@.len() ==> (#[trigger] out@[i]).samples@ == all[i]
                        && out@[i].sequence == seq0 + i,
                self.next_sequence == seq0 + out@.len(),
                self.next_sequence + self.buffer@.len() <= u64::MAX,
            decreases self.buffer@.len(),
        {
            let ghost bufg = self.buffer@;
            proof {
                assert(chunker_drain(bufg, cs, ov).1 == seq![bufg.take(cs)] + chunker_drain(
                    bufg.skip(cs - ov),
                    cs,
                    ov,
                ).1);
            }
            let mut chunk_samples: Vec<Sample> = Vec::new();
            let mut i: usize = 0;
            while i < self.chunk_size
                invariant
                    i <= self.chunk_size <= self.buffer@.len(),
                    self.buffer@ == bufg,
                    chunk_samples@ == bufg.take(i as int),
                decreases self.chunk_size - i,
            {
                chunk_samples.push(self.buffer[i]);
                proof {
                    assert(chunk_samples@ =~= bufg.take(i + 1));
                }
                i = i + 1;
            }
            let cut = self.chunk_size - self.overlap_size;
            let mut rest: Vec<Sample> = Vec::new();
            let mut j: usize = cut;
            while j < self.buffer.len()
                invariant
                    cut <= j <= self.buffer@.len(),
                    self.buffer@ == bufg,
                    rest@ == bufg.subrange(cut as int, j as int),
                decreases self.buffer@.len() - j,
            {
                rest.push(self.buffer[j]);
                proof {
                    assert(rest@ =~= bufg.subrange(cut as int, j + 1));
                }
                j = j + 1;
            }
            proof {
                assert(rest@ =~= bufg.skip(cut as int));
            }
            self.buffer = rest;
            let seq_no = self.next_sequence;
            self.next_sequence = seq_no + 1;
            let ghost k = out@.len() as int;
            out.push(
                AudioChunk { samples: chunk_samples, timestamp: crate::clock::now(), sequence: seq_no },
            );
            proof {
                assert(all.skip(k)[0] == all[k]);
                assert(all.skip(k).skip(1) =~= all.skip(k + 1));
                assert((seq![bufg.take(cs)] + chunker_drain(bufg.skip(cs - ov), cs, ov).1).skip(1)
                    =~= chunker_drain(bufg.skip(cs - ov), cs, ov).1);
            }
        }
        proof {
            assert(combined == old(self).spec_buffer() + samples@);
            assert(all.skip(out@.len() as int).len() == 0);
            assert(out@.len() == all.len());
            assert(self.buffer@ == fin);
            let (kept, emitted) = chunker_step(
                old(self).spec_buffer(),
                samples@,
                old(self).spec_chunk_size(),
                old(self).spec_overlap_size(),
            );
            assert(kept == fin);
            assert(emitted == all);
            lemma_drain_props(combined, cs, ov);
        }
        out
    }

    /// Discard everything buffered towards the next chunk; the sequence
    /// numbering continues where it was.
    pub fn clear(&mut self)
        requires
            old(self).wf(),
        ensures
            final(self).wf(),
            final(self).spec_buffer() == Seq::<Sample>::empty(),
            final(self).spec_next_sequence() == old(self).spec_next_sequence(),
            final(self).spec_chunk_size() == old(self).spec_chunk_size(),
            final(self).spec_overlap_size() == old(self).spec_overlap_size(),
    {
        self.buffer.clear();
    }
}

/// Run the chunker over a whole sequence of batches, collecting the
/// emitted chunks in order.
pub open spec fn chunker_run(
    buf: Seq<Sample>,
    batches: Seq<Seq<Sample>>,
    chunk_size: int,
    overlap: int,
) -> (Seq<Sample>, Seq<Seq<Sample>>)
    decreases batches.len(),
{
    if batches.len() == 0 {
        (buf, Seq::<Seq<Sample>>::empty())
    } else {
        let (kept, emitted) = chunker_step(buf, batches[0], chunk_size, overlap);
        let (last, chunks) = chunker_run(kept, batches.skip(1), chunk_size, overlap);
        (last, emitted + chunks)
    }
}

/// What one drain guarantees: every emitted chunk is exactly one chunk
/// long, consecutive chunks overlap as configured, the first chunk opens
/// the drained buffer, and what stays buffered is shorter than one chunk
/// and begins with the last chunk's trailing overlap.
pub proof fn lemma_drain_props(buf: Seq<Sample>, chunk_size: int, overlap: int)
    requires
        0 <= overlap < chunk_size,
    ensures
        ({
            let (kept, chunks) = chunker_drain(buf, chunk_size, overlap);
            &&& kept.len() < chunk_size
            &&& (forall|i: int|
                0 <= i < chunks.len() ==> (#[trigger] chunks[i]).len() == chunk_size)
            &&& (forall|i: int|
                1 <= i < chunks.len() ==> (#[trigger] chunks[i]).take(overlap) == chunks[i
                    - 1].skip(chunk_size - overlap))
            &&& (chunks.len() > 0 ==> chunks[0] == buf.take(chunk_size))
            &&& (chunks.len() > 0 ==> kept.len() >= overlap && kept.take(overlap)
                == chunks.last().skip(chunk_size - overlap))
            &&& (chunks.len() == 0 ==> kept == buf)
        }),
    decreases buf.len(),
{
    if buf.len() < chunk_size {
    } else {
        let c0 = buf.take(chunk_size);
        let kept1 = buf.skip(chunk_size - overlap);
        lemma_drain_props(kept1, chunk_size, overlap);
        let rest = chunker_drain(kept1, chunk_size, overlap).1;
        let kept = chunker_drain(kept1, chunk_size, overlap).0;
        let chunks = seq![c0] + rest;
        assert(kept1.take(overlap) =~= c0.skip(chunk_size - overlap));
        if rest.len() == 0 {
            assert(chunks.last() == c0);
        } else {
            assert(rest[0] == kept1.take(chunk_size));
            assert(rest[0].take(overlap) =~= kept1.take(overlap));
            assert(chunks.last() == rest.last());
        }
        assert forall|i: int| 0 <= i < chunks.len() implies (#[trigger] chunks[i]).len()
            == chunk_size by {
            if i > 0 {
                assert(chunks[i] == rest[i - 1]);
            }
        }
        assert forall|i: int| 1 <= i < chunks.len() implies (#[trigger] chunks[i]).take(overlap)
            == chunks[i - 1].skip(chunk_size - overlap) by {
            if i == 1 {
                assert(chunks[1] == rest[0]);
                assert(chunks[0] == c0);
            } else {
                assert(chunks[i] == rest[i - 1]);
                assert(chunks[i - 1] == rest[i - 2]);
            }
        }
    }
}

/// Every chunk a run emits after the first continues its predecessor:
/// for any starting buffer that already carries the last emitted chunk's
/// trailing overlap as its prefix, each chunk the run emits continues
/// that relation.
proof fn lemma_run_overlap_chain(
    buf: Seq<Sample>,
    batches: Seq<Seq<Sample>>,
    chunk_size: int,
    overlap: int,
    prev: Seq<Sample>,
)
    requires
        0 <= overlap < chunk_size,
        prev.len() == chunk_size,
        buf.len() >= overlap,
        buf.take(overlap) == prev.skip(chunk_size - overlap),
    ensures
        ({
            let (last, chunks) = chunker_run(buf, batches, chunk_size, overlap);
            &&& (chunks.len() > 0 ==> chunks[0].take(overlap) == prev.skip(chunk_size - overlap))
            &&& (forall|i: int|
                0 <= i < chunks.len() ==> (#[trigger] chunks[i]).len() == chunk_size)
            &&& (forall|i: int|
                1 <= i < chunks.len() ==> (#[trigger] chunks[i]).take(overlap) == chunks[i
                    - 1].skip(chunk_size - overlap))
        }),
    decreases batches.len(),
{
    if batches.len() == 0 {
    } else {
        let combined = buf + batches[0];
        lemma_drain_props(combined, chunk_size, overlap);
        let kept = chunker_drain(combined, chunk_size, overlap).0;
        let emitted = chunker_drain(combined, chunk_size, overlap).1;
        let rest = chunker_run(kept, batches.skip(1), chunk_size, overlap).1;
        let chunks = emitted + rest;
        assert(combined.take(overlap) =~= buf.take(overlap));
        if emitted.len() > 0 {
            assert(emitted[0] == combined.take(chunk_size));
            assert(emitted[0].take(overlap) =~= combined.take(overlap));
            assert(emitted.last() == emitted[emitted.len() - 1]);
            assert(emitted.last().len() == chunk_size);
            lemma_run_overlap_chain(kept, batches.skip(1), chunk_size, overlap, emitted.last());
            assert(chunks[0] == emitted[0]);
            assert forall|i: int| 0 <= i < chunks.len() implies (#[trigger] chunks[i]).len()
                == chunk_size by {
                if i < emitted.len() {
                    assert(chunks[i] == emitted[i]);
                } else {
                    assert(chunks[i] == rest[i - emitted.len()]);
                }
            }
            assert forall|i: int| 1 <= i < chunks.len() implies (#[trigger] chunks[i]).take(
                overlap,
            ) == chunks[i - 1].skip(chunk_size - overlap) by {
                if i < emitted.len() {
                    assert(chunks[i] == emitted[i]);
                    assert(chunks[i - 1] == emitted[i - 1]);
                } else if i == emitted.len() {
                    assert(chunks[i] == rest[0]);
                    assert(chunks[i - 1] == emitted[i - 1]);
                    assert(emitted[i - 1] == emitted.last());
                } else {
                    assert(chunks[i] == rest[i - emitted.len()]);
                    assert(chunks[i - 1] == rest[i - 1 - emitted.len()]);
                }
            }
        } else {
            assert(kept == combined);
            assert(kept.take(overlap) == prev.skip(chunk_size - overlap));
            lemma_run_overlap_chain(kept, batches.skip(1), chunk_size, overlap, prev);
            assert(chunks =~= rest);
        }
    }
}

/// A run started from any buffer emits chunks of exactly one chunk
/// length that satisfy the adjacent-overlap relation among themselves.
proof fn lemma_run_adjacent(
    buf: Seq<Sample>,
    batches: Seq<Seq<Sample>>,
    chunk_size: int,
    overlap: int,
)
    requires
        0 <= overlap < chunk_size,
    ensures
        ({
            let (last, chunks) = chunker_run(buf, batches, chunk_size, overlap);
            &&& (forall|i: int|
                0 <= i < chunks.len() ==> (#[trigger] chunks[i]).len() == chunk_size)
            &&& (forall|i: int|
                1 <= i < chunks.len() ==> (#[trigger] chunks[i]).take(overlap) == chunks[i
                    - 1].skip(chunk_size - overlap))
        }),
    decreases batches.len(),
{
    if batches.len() == 0 {
    } else {
        let combined = buf + batches[0];
        lemma_drain_props(combined, chunk_size, overlap);
        let kept = chunker_drain(combined, chunk_size, overlap).0;
        let emitted = chunker_drain(combined, chunk_size, overlap).1;
        let rest = chunker_run(kept, batches.skip(1), chunk_size, overlap).1;
        let chunks = emitted + rest;
        if emitted.len() > 0 {
            assert(emitted.last() == emitted[emitted.len() - 1]);
            assert(emitted.last().len() == chunk_size);
            lemma_run_overlap_chain(kept, batches.skip(1), chunk_size, overlap, emitted.last());
            assert forall|i: int| 0 <= i < chunks.len() implies (#[trigger] chunks[i]).len()
                == chunk_size by {
                if i < emitted.len() {
                    assert(chunks[i] == emitted[i]);
                } else {
                    assert(chunks[i] == rest[i - emitted.len()]);
                }
            }
            assert forall|i: int| 1 <= i < chunks.len() implies (#[trigger] chunks[i]).take(
                overlap,
            ) == chunks[i - 1].skip(chunk_size - overlap) by {
                if i < emitted.len() {
                    assert(chunks[i] == emitted[i]);
                    assert(chunks[i - 1] == emitted[i - 1]);
                } else if i == emitted.len() {
                    assert(chunks[i] == rest[0]);
                    assert(chunks[i - 1] == emitted[i - 1]);
                    assert(emitted[i - 1] == emitted.last());
                } else {
                    assert(chunks[i] == rest[i - emitted.len()]);
                    assert(chunks[i - 1] == rest[i - 1 - emitted.len()]);
                }
            }
        } else {
            lemma_run_adjacent(kept, batches.skip(1), chunk_size, overlap);
            assert(chunks =~= rest);
        }
    }
}

/// Fed any continuous stream of batches from an empty buffer, every chunk
/// is exactly one chunk length long, and the first `overlap` samples of
/// chunk N+1 equal the last `overlap` samples of chunk N.
pub proof fn lemma_chunk_overlap(batches: Seq<Seq<Sample>>, chunk_size: int, overlap: int)
    requires
        0 <= overlap < chunk_size,
    ensures
        ({
            let (last, chunks) = chunker_run(
                Seq::<Sample>::empty(),
                batches,
                chunk_size,
                overlap,
            );
            &&& (forall|i: int|
                0 <= i < chunks.len() ==> (#[trigger] chunks[i]).len() == chunk_size)
            &&& (forall|i: int|
                1 <= i < chunks.len() ==> (#[trigger] chunks[i]).take(overlap) == chunks[i
                    - 1].skip(chunk_size - overlap))
        }),
{
    lemma_run_adjacent(Seq::<Sample>::empty(), batches, chunk_size, overlap);
}

} // verus!
