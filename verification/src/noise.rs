//! Frame accumulation for the stateful noise-suppression model.
//!
//! The denoise model consumes fixed 480-sample frames at 48 kHz and is a
//! length-preserving map on each frame. This module owns everything
//! around that call: the enabled flag and the carry-over buffer that
//! accumulates partial frames across calls. `process` splits off the
//! samples that form complete model frames, in order, and keeps the
//! remainder buffered; the caller then runs each returned frame of 480
//! samples through the model, so the lengths and framing proved here
//! carry over to the denoised stream unchanged.

use vstd::prelude::*;

verus! {

use crate::buffer::Sample;
use vstd::arithmetic::div_mod::{lemma_basic_div, lemma_fundamental_div_mod, lemma_mod_bound};

/// Sample rate required by the denoise model (48 kHz).
pub const RNNOISE_SAMPLE_RATE: u32 = 48000;

/// Frame size of the denoise model: 480 samples, 10 ms at 48 kHz.
pub const RNNOISE_FRAME_SIZE: usize = 480;

/// Copy a sample vector.
pub fn copy_samples(src: &Vec<Sample>) -> (r: Vec<Sample>)
    ensures
        r@ == src@,
{
    let mut r: Vec<Sample> = Vec::new();
    let mut i: usize = 0;
    while i < src.len()
        invariant
            i <= src@.len(),
            r@ == src@.take(i as int),
        decreases src@.len() - i,
    {
        r.push(src[i]);
        proof {
            assert(r@ =~= src@.take(i + 1));
        }
        i = i + 1;
    }
    proof {
        assert(r@ =~= src@);
    }
    r
}

/// Length of the complete-frame prefix of `len` accumulated samples.
pub open spec fn aligned_len(len: int) -> int {
    (len / (RNNOISE_FRAME_SIZE as int)) * (RNNOISE_FRAME_SIZE as int)
}

/// Noise-reduction stage: an enabled flag and the carry-over buffer of
/// samples that do not yet fill a model frame.
pub struct NoiseReducer {
    enabled: bool,
    input_buffer: Vec<Sample>,
}

impl NoiseReducer {
    /// Whether the stage is enabled.
    pub closed spec fn spec_enabled(&self) -> bool {
        self.enabled
    }

    /// The carried-over samples awaiting a full frame.
    pub closed spec fn spec_buffered(&self) -> Seq<Sample> {
        self.input_buffer@
    }

    /// A new, enabled reducer with nothing carried over.
    pub fn new() -> (r: NoiseReducer)
        ensures
            r.spec_enabled(),
            r.spec_buffered() == Seq::<Sample>::empty(),
    {
        NoiseReducer { enabled: true, input_buffer: Vec::new() }
    }

    /// Feed samples at the model rate. When disabled, the input passes
    /// through unchanged and the carry-over is not touched. When enabled,
    /// the input joins the carry-over and the longest complete-frame
    /// prefix is returned, in order, ready to be run through the model
    /// one 480-sample frame at a time; the remainder stays buffered, so a
    /// single call may return fewer or more samples than it was fed, but
    /// the stream as a whole falls behind by less than one frame.
    pub fn process(&mut self, audio_48k: &Vec<Sample>) -> (r: Vec<Sample>)
        ensures
            final(self).spec_enabled() == old(self).spec_enabled(),
            !old(self).spec_enabled() ==> r@ == audio_48k@ && final(self).spec_buffered() == old(
                self,
            ).spec_buffered(),
            old(self).spec_enabled() ==> ({
                let combined = old(self).spec_buffered() + audio_48k@;
                &&& r@ == combined.take(aligned_len(combined.len() as int))
                &&& final(self).spec_buffered() == combined.skip(
                    aligned_len(combined.len() as int),
                )
                &&& r@.len() as int % (RNNOISE_FRAME_SIZE as int) == 0
            }),
    {
        if !self.enabled {
            return copy_samples(audio_48k);
        }
        self.input_buffer.extend_from_slice(audio_48k.as_slice());
        let ghost combined = self.input_buffer@;
        let len = self.input_buffer.len();
        let frames = len / RNNOISE_FRAME_SIZE;
        proof {
            lemma_fundamental_div_mod(len as int, RNNOISE_FRAME_SIZE as int);
            lemma_mod_bound(len as int, RNNOISE_FRAME_SIZE as int);
            assert((RNNOISE_FRAME_SIZE as int) * (frames as int) == (frames as int) * (
            RNNOISE_FRAME_SIZE as int));
        }
        let aligned = frames * RNNOISE_FRAME_SIZE;
        let mut output: Vec<Sample> = Vec::new();
        let mut i: usize = 0;
        while i < aligned
            invariant
                i <= aligned <= self.input_buffer@.len(),
                self.input_buffer@ == combined,
                output@ == combined.take(i as int),
            decreases aligned - i,
        {
            output.push(self.input_buffer[i]);
            proof {
                assert(output@ =~= combined.take(i + 1));
            }
            i = i + 1;
        }
        let mut rest: Vec<Sample> = Vec::new();
        let mut j: usize = aligned;
        while j < len
            invariant
                aligned <= j <= len,
                len == self.input_buffer@.len(),
                self.input_buffer@ == combined,
                rest@ == combined.subrange(aligned as int, j as int),
            decreases len - j,
        {
            rest.push(self.input_buffer[j]);
            proof {
                assert(rest@ =~= combined.subrange(aligned as int, j + 1));
            }
            j = j + 1;
        }
        proof {
            assert(rest@ =~= combined.skip(aligned as int));
            assert(output@.len() as int % (RNNOISE_FRAME_SIZE as int) == 0) by {
                assert(output@.len() == (frames as int) * (RNNOISE_FRAME_SIZE as int));
                vstd::arithmetic::div_mod::lemma_mod_multiples_basic(
                    frames as int,
                    RNNOISE_FRAME_SIZE as int,
                );
            }
        }
        self.input_buffer = rest;
        output
    }

    /// Enable the stage; the carry-over is kept.
    pub fn enable(&mut self)
        ensures
            final(self).spec_enabled(),
            final(self).spec_buffered() == old(self).spec_buffered(),
    {
        self.enabled = true;
    }

    /// Disable the stage and discard the buffered context: disabling
    /// drops, not retains, the partial frame.
    pub fn disable(&mut self)
        ensures
            !final(self).spec_enabled(),
            final(self).spec_buffered() == Seq::<Sample>::empty(),
    {
        self.enabled = false;
        self.input_buffer.clear();
    }

    /// Whether the stage is enabled.
    pub fn is_enabled(&self) -> (r: bool)
        ensures
            r == self.spec_enabled(),
    {
        self.enabled
    }

    /// Enable or disable; disabling discards the carry-over.
    pub fn set_enabled(&mut self, enabled: bool)
        ensures
            final(self).spec_enabled() == enabled,
            enabled ==> final(self).spec_buffered() == old(self).spec_buffered(),
            !enabled ==> final(self).spec_buffered() == Seq::<Sample>::empty(),
    {
        if enabled {
            self.enable();
        } else {
            self.disable();
        }
    }

    /// The sample rate the model expects.
    pub fn required_sample_rate() -> (r: u32)
        ensures
            r == RNNOISE_SAMPLE_RATE,
    {
        RNNOISE_SAMPLE_RATE
    }

    /// Discard the carry-over. The caller reinitializes the model state
    /// it holds alongside, so the next frame starts from silence history.
    pub fn reset(&mut self)
        ensures
            final(self).spec_enabled() == old(self).spec_enabled(),
            final(self).spec_buffered() == Seq::<Sample>::empty(),
    {
        self.input_buffer.clear();
    }
}

impl Default for NoiseReducer {
    /// Same as `new`: enabled, with nothing carried over.
    fn default() -> (r: NoiseReducer)
        ensures
            r.spec_enabled(),
            r.spec_buffered() == Seq::<Sample>::empty(),
    {
        NoiseReducer::new()
    }
}

/// Fed fewer samples than one model frame, the suppressor emits nothing;
/// once the accumulated samples cross the frame boundary it emits exactly
/// one full frame.
pub proof fn lemma_frame_boundary(len: int)
    requires
        0 <= len,
    ensures
        len < RNNOISE_FRAME_SIZE ==> aligned_len(len) == 0,
        RNNOISE_FRAME_SIZE <= len < 2 * RNNOISE_FRAME_SIZE ==> aligned_len(len)
            == RNNOISE_FRAME_SIZE,
{
    let f = RNNOISE_FRAME_SIZE as int;
    if len < f {
        lemma_basic_div(len, f);
    } else if len < 2 * f {
        assert(len / f == 1) by (nonlinear_arith)
            requires
                f <= len < 2 * f,
                0 < f,
        ;
    }
}

} // verus!
