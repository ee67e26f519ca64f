//! Fixed-capacity ring buffer handing audio samples from the capture side
//! to the processing side.
//!
//! The buffer owns a circular storage whose size is fixed at construction:
//! writing never grows it, and when it is full the excess samples of a
//! write are dropped and reported through the return count, never silently
//! reordered. Reading removes the oldest samples first.

use vstd::prelude::*;

verus! {

use vstd::arithmetic::div_mod::{
    lemma_add_mod_noop, lemma_fundamental_div_mod, lemma_mod_equivalence,
    lemma_mod_multiples_basic, lemma_mod_self_0, lemma_small_mod,
};

/// One audio sample, carried as the 32-bit encoding of a single-precision
/// value. The pipeline moves samples without interpreting them.
pub type Sample = u32;

/// Sample rate required by the transcription engine (16 kHz).
pub const WHISPER_SAMPLE_RATE: u32 = 16000;

/// Default buffer capacity: 5 seconds of audio at 16 kHz.
pub const DEFAULT_BUFFER_CAPACITY: usize = 16000 * 5;

/// Ring buffer for audio samples.
///
/// The queued samples are `storage[(head + i) % storage.len()]` for
/// `i < count`, oldest first.
pub struct AudioBuffer {
    storage: Vec<Sample>,
    head: usize,
    count: usize,
}

impl View for AudioBuffer {
    type V = Seq<Sample>;

    /// The queued samples, oldest first.
    closed spec fn view(&self) -> Seq<Sample> {
        Seq::new(
            self.count as nat,
            |i: int| self.storage@[(self.head + i) % (self.storage@.len() as int)],
        )
    }
}

/// The smaller of two lengths.
pub open spec fn spec_min(a: int, b: int) -> int {
    if a <= b {
        a
    } else {
        b
    }
}

/// Two distinct positions less than one period apart fall on distinct
/// slots of the circular storage.
proof fn lemma_distinct_slots(a: int, b: int, m: int)
    requires
        0 < b - a < m,
    ensures
        a % m != b % m,
{
    lemma_mod_equivalence(b, a, m);
    lemma_small_mod((b - a) as nat, m as nat);
}

/// Advance a slot index by one, wrapping at the period.
fn wrap_incr(idx: usize, cap: usize, Ghost(t): Ghost<int>) -> (r: usize)
    requires
        0 < cap,
        idx < cap,
        idx == t % (cap as int),
        t >= 0,
    ensures
        r < cap,
        r == (t + 1) % (cap as int),
{
    proof {
        let q = t / (cap as int);
        lemma_fundamental_div_mod(t, cap as int);
        assert(t == (cap as int) * q + idx);
        assert((cap as int) * q == q * (cap as int));
        lemma_mod_multiples_basic(q, cap as int);
        assert((t + 1 - (idx + 1)) % (cap as int) == 0);
        lemma_mod_equivalence(t + 1, idx + 1, cap as int);
        if idx + 1 < cap {
            lemma_small_mod((idx + 1) as nat, cap as nat);
        } else {
            lemma_mod_self_0(cap as int);
        }
    }
    if idx + 1 == cap {
        0
    } else {
        idx + 1
    }
}

/// The slot one past the newest queued sample, given the oldest slot and
/// the queue length.
fn wrap_add(head: usize, count: usize, cap: usize) -> (r: usize)
    requires
        0 < cap,
        head < cap,
        count <= cap,
    ensures
        r < cap,
        r == (head + count) % (cap as int),
{
    proof {
        if head + count < cap {
            lemma_small_mod((head + count) as nat, cap as nat);
        } else {
            lemma_mod_self_0(cap as int);
            lemma_mod_equivalence(head + count, head + count - cap, cap as int);
            lemma_small_mod((head + count - cap) as nat, cap as nat);
        }
    }
    if count > cap - head - 1 {
        // head + count wraps past the end of the storage
        head - (cap - count)
    } else {
        head + count
    }
}

impl AudioBuffer {
    /// Number of samples the buffer can hold at once.
    pub closed spec fn spec_capacity(&self) -> nat {
        self.storage@.len()
    }

    /// Structural invariant: the queue never exceeds the storage, and the
    /// oldest slot lies inside it.
    pub closed spec fn wf(&self) -> bool {
        &&& self.count <= self.storage@.len()
        &&& (self.storage@.len() > 0 ==> self.head < self.storage@.len())
        &&& (self.storage@.len() == 0 ==> self.head == 0)
    }

    /// Create a buffer that can hold `capacity` samples.
    pub fn new(capacity: usize) -> (r: AudioBuffer)
        ensures
            r.wf(),
            r@ == Seq::<Sample>::empty(),
            r.spec_capacity() == capacity,
    {
        let r = AudioBuffer { storage: vec![0u32; capacity], head: 0, count: 0 };
        proof {
            assert(r@ =~= Seq::<Sample>::empty());
        }
        r
    }

    /// Create a buffer with the default capacity (5 seconds at 16 kHz).
    pub fn with_default_capacity() -> (r: AudioBuffer)
        ensures
            r.wf(),
            r@ == Seq::<Sample>::empty(),
            r.spec_capacity() == DEFAULT_BUFFER_CAPACITY,
    {
        AudioBuffer::new(DEFAULT_BUFFER_CAPACITY)
    }

    /// Store as many of `samples` as fit, in order, and return how many
    /// were stored. Excess samples are dropped, never queued out of order;
    /// a short count signals backpressure to the caller.
    pub fn write(&mut self, samples: &Vec<Sample>) -> (written: usize)
        requires
            old(self).wf(),
        ensures
            final(self).wf(),
            final(self).spec_capacity() == old(self).spec_capacity(),
            written == spec_min(
                samples@.len() as int,
                old(self).spec_capacity() - old(self)@.len(),
            ),
            final(self)@ == old(self)@ + samples@.take(written as int),
    {
        let cap = self.storage.len();
        let avail = cap - self.count;
        let n = if samples.len() < avail {
            samples.len()
        } else {
            avail
        };
        if n == 0 {
            proof {
                assert(self@ =~= old(self)@ + samples@.take(0));
            }
            return 0;
        }
        let ghost head0 = self.head as int;
        let ghost count0 = self.count as int;
        let mut idx = wrap_add(self.head, self.count, cap);
        let mut i: usize = 0;
        while i < n
            invariant
                0 < cap,
                cap == self.storage@.len(),
                self.head == head0,
                self.count == count0,
                head0 < cap,
                0 <= count0,
                count0 + n <= cap,
                n <= samples@.len(),
                i <= n,
                idx < cap,
                idx == (head0 + count0 + i) % (cap as int),
                forall|j: int|
                    0 <= j < count0 ==> self.storage@[#[trigger] ((head0 + j) % (cap as int))]
                        == old(self).storage@[(head0 + j) % (cap as int)],
                forall|j: int|
                    0 <= j < i ==> self.storage@[#[trigger] ((head0 + count0 + j) % (cap as int))]
                        == samples@[j],
            decreases n - i,
        {
            proof {
                assert forall|j: int| 0 <= j < count0 implies #[trigger] ((head0 + j) % (
                cap as int)) != idx by {
                    lemma_distinct_slots(head0 + j, head0 + count0 + i, cap as int);
                }
                assert forall|j: int| 0 <= j < i implies #[trigger] ((head0 + count0 + j) % (
                cap as int)) != idx by {
                    lemma_distinct_slots(head0 + count0 + j, head0 + count0 + i, cap as int);
                }
            }
            self.storage.set(idx, samples[i]);
            idx = wrap_incr(idx, cap, Ghost(head0 + count0 + i));
            i = i + 1;
        }
        self.count = self.count + n;
        proof {
            let merged = old(self)@ + samples@.take(n as int);
            assert forall|k: int| 0 <= k < count0 + n implies self@[k] == merged[k] by {
                if k < count0 {
                    assert(self.storage@[(head0 + k) % (cap as int)] == old(self).storage@[(head0
                        + k) % (cap as int)]);
                } else {
                    let j = k - count0;
                    assert(self.storage@[(head0 + count0 + j) % (cap as int)] == samples@[j]);
                    assert(head0 + count0 + j == head0 + k);
                }
            }
            assert(self@ =~= merged);
        }
        n
    }

    /// Copy up to `out.len()` of the oldest queued samples into the front
    /// of `out`, removing them, and return how many were copied. The tail
    /// of `out` past the copied prefix is left unchanged.
    pub fn read(&mut self, out: &mut Vec<Sample>) -> (read: usize)
        requires
            old(self).wf(),
        ensures
            final(self).wf(),
            final(self).spec_capacity() == old(self).spec_capacity(),
            read == spec_min(old(out)@.len() as int, old(self)@.len() as int),
            final(out)@.len() == old(out)@.len(),
            final(out)@ == old(self)@.take(read as int) + old(out)@.skip(read as int),
            final(self)@ == old(self)@.skip(read as int),
    {
        let cap = self.storage.len();
        let n = if out.len() < self.count {
            out.len()
        } else {
            self.count
        };
        if n == 0 {
            proof {
                assert(out@ =~= old(self)@.take(0) + old(out)@.skip(0));
                assert(self@ =~= old(self)@.skip(0));
            }
            return 0;
        }
        let ghost head0 = self.head as int;
        let ghost count0 = self.count as int;
        let mut idx = self.head;
        proof {
            lemma_small_mod(head0 as nat, cap as nat);
        }
        let mut i: usize = 0;
        while i < n
            invariant
                0 < cap,
                cap == self.storage@.len(),
                self.head == head0,
                self.count == count0,
                head0 < cap,
                n <= count0 <= cap,
                n <= out@.len(),
                out@.len() == old(out)@.len(),
                i <= n,
                idx < cap,
                idx == (head0 + i) % (cap as int),
                self.storage == old(self).storage,
                forall|j: int| 0 <= j < i ==> out@[j] == old(self)@[j],
                forall|j: int| i <= j < out@.len() ==> out@[j] == old(out)@[j],
            decreases n - i,
        {
            out.set(i, self.storage[idx]);
            proof {
                assert(old(self)@[i as int] == self.storage@[(head0 + i) % (cap as int)]);
            }
            idx = wrap_incr(idx, cap, Ghost(head0 + i));
            i = i + 1;
        }
        self.head = wrap_add(self.head, n, cap);
        self.count = self.count - n;
        proof {
            assert forall|k: int| 0 <= k < count0 - n implies self@[k] == old(self)@[n + k] by {
                lemma_small_mod(k as nat, cap as nat);
                lemma_add_mod_noop(head0 + n, k, cap as int);
                assert((self.head + k) % (cap as int) == (head0 + (n + k)) % (cap as int));
                assert(old(self)@[n + k] == old(self).storage@[(head0 + (n + k)) % (cap as int)]);
            }
            assert(out@ =~= old(self)@.take(n as int) + old(out)@.skip(n as int));
            assert(self@ =~= old(self)@.skip(n as int));
        }
        n
    }

    /// Remove and return exactly `count` samples, or return `None` and
    /// leave the buffer unchanged when fewer are queued: no partial reads.
    pub fn try_read_exact(&mut self, count: usize) -> (r: Option<Vec<Sample>>)
        requires
            old(self).wf(),
        ensures
            final(self).wf(),
            final(self).spec_capacity() == old(self).spec_capacity(),
            r is Some <==> old(self)@.len() >= count,
            r is Some ==> r.unwrap()@ == old(self)@.take(count as int) && final(self)@ == old(
                self,
            )@.skip(count as int),
            r is None ==> final(self)@ == old(self)@,
    {
        if self.count >= count {
            let mut buf: Vec<Sample> = vec![0u32; count];
            let got = self.read(&mut buf);
            proof {
                assert(buf@ =~= old(self)@.take(count as int));
            }
            Some(buf)
        } else {
            None
        }
    }

    /// Number of samples currently queued.
    pub fn len(&self) -> (r: usize)
        ensures
            r == self@.len(),
    {
        self.count
    }

    /// Whether no samples are queued.
    pub fn is_empty(&self) -> (r: bool)
        ensures
            r == (self@.len() == 0),
    {
        self.count == 0
    }

    /// The fixed capacity chosen at construction.
    pub fn capacity(&self) -> (r: usize)
        ensures
            r == self.spec_capacity(),
    {
        self.storage.len()
    }

    /// Number of free slots: how many samples a write can still store.
    pub fn available(&self) -> (r: usize)
        requires
            self.wf(),
        ensures
            r == self.spec_capacity() - self@.len(),
    {
        self.storage.len() - self.count
    }

    /// Discard all queued samples.
    pub fn clear(&mut self)
        requires
            old(self).wf(),
        ensures
            final(self).wf(),
            final(self).spec_capacity() == old(self).spec_capacity(),
            final(self)@ == Seq::<Sample>::empty(),
    {
        self.head = 0;
        self.count = 0;
        proof {
            assert(self@ =~= Seq::<Sample>::empty());
        }
    }
}

impl Default for AudioBuffer {
    /// A buffer with the default capacity.
    fn default() -> (r: AudioBuffer)
        ensures
            r.wf(),
            r@ == Seq::<Sample>::empty(),
            r.spec_capacity() == DEFAULT_BUFFER_CAPACITY,
    {
        AudioBuffer::with_default_capacity()
    }
}

/// However many samples are written, a well-formed buffer never holds
/// more than its capacity: every operation preserves well-formedness, so
/// the queue cannot grow without bound.
pub proof fn lemma_len_le_capacity(b: &AudioBuffer)
    requires
        b.wf(),
    ensures
        b@.len() <= b.spec_capacity(),
{
}

/// Writing a sequence that fits in the free space stores it whole, and an
/// immediate read of that many samples returns exactly the written
/// sequence, in order. Stated over the sequence model used by the
/// contracts of `write` and `read`: `write` leaves `before + w`, and
/// `read` then returns the prefix of the requested length, whose suffix
/// past the prior contents is `w` itself.
pub proof fn lemma_write_then_read_round_trip(before: Seq<Sample>, cap: int, w: Seq<Sample>)
    requires
        before.len() + w.len() <= cap,
    ensures
        before + w.take(spec_min(w.len() as int, cap - before.len())) == before + w,
        (before + w).take((before.len() + w.len()) as int) == before + w,
        (before + w).skip(before.len() as int) == w,
        before.len() == 0 ==> (before + w).take(w.len() as int) == w,
{
    assert(w.take(w.len() as int) =~= w);
    assert(before + w.take(w.len() as int) =~= before + w);
    assert((before + w).take((before.len() + w.len()) as int) =~= before + w);
    assert((before + w).skip(before.len() as int) =~= w);
    if before.len() == 0 {
        assert((before + w).take(w.len() as int) =~= w);
    }
}

} // verus!

