//! Normalizing captured audio to mono at the target rate: the exact
//! layout of channel mixdown and the linear-interpolation resampling
//! plan.
//!
//! The per-sample arithmetic is floating point and runs outside the
//! library, but everything that decides *which* samples combine is
//! fixed here: a frame of `channels` interleaved samples averages into
//! one mono sample, and resampling reads, for each output position, the
//! source sample at the rational position `i * from / to` and blends it
//! with its successor by the fractional remainder.

use vstd::prelude::*;

verus! {

use vstd::arithmetic::div_mod::{lemma_fundamental_div_mod, lemma_mod_bound};

/// Audio capture configuration.
#[derive(Debug, Clone)]
pub struct CaptureConfig {
    /// Target sample rate; the transcription engine wants 16 kHz.
    pub sample_rate: u32,
    /// Target number of channels; 1 for mono.
    pub channels: u16,
}

impl Default for CaptureConfig {
    /// 16 kHz mono.
    fn default() -> (r: CaptureConfig)
        ensures
            r.sample_rate == crate::buffer::WHISPER_SAMPLE_RATE,
            r.channels == 1,
    {
        CaptureConfig { sample_rate: crate::buffer::WHISPER_SAMPLE_RATE, channels: 1 }
    }
}

/// What an input device reports about itself.
#[derive(Debug, Clone)]
pub struct DeviceInfo {
    pub name: String,
    pub is_default: bool,
    pub supported_sample_rates: Vec<u32>,
    pub supported_channels: Vec<u16>,
}

/// How many whole frames of `channels` interleaved samples a buffer
/// holds: one mono sample comes out per frame, samples beyond the last
/// whole frame are dropped.
pub fn mono_frame_count(len: usize, channels: usize) -> (r: usize)
    requires
        channels > 0,
    ensures
        r == len as int / channels as int,
{
    len / channels
}

/// One step of a resampling plan: the output sample is the source
/// sample at `index`, blended towards the next source sample by
/// `frac_num / to_rate`. A zero `frac_num` means the source sample is
/// taken unchanged.
#[derive(Debug, Clone, Copy, PartialEq, Eq, Structural)]
pub struct ResampleStep {
    /// Index of the source sample read.
    pub index: usize,
    /// Numerator of the blend towards `index + 1`, over `to_rate`; zero
    /// at the tail of the plan, where no successor exists.
    pub frac_num: u32,
}

/// Number of output samples when resampling `len` samples between the
/// two rates.
pub open spec fn resample_out_len(len: int, from_rate: int, to_rate: int) -> int {
    len * to_rate / from_rate
}

/// The source index output position `i` reads: the whole part of the
/// exact rational position `i * from / to`.
pub open spec fn resample_index(i: int, from_rate: int, to_rate: int) -> int {
    i * from_rate / to_rate
}

/// The blend numerator of output position `i`: the remainder of the
/// exact rational position, or zero where the read sample has no
/// successor and is taken unchanged.
pub open spec fn resample_frac(i: int, len: int, from_rate: int, to_rate: int) -> int {
    if resample_index(i, from_rate, to_rate) + 1 < len {
        (i * from_rate) % to_rate
    } else {
        0
    }
}

/// The plan for resampling `len` source samples from `from_rate` to
/// `to_rate` by linear interpolation: one step per output position,
/// every step reading inside the source, and — when the rates are equal
/// — the identity plan, step `i` taking source sample `i` unchanged.
#[verifier::loop_isolation(false)]
#[verifier::rlimit(30)]
pub fn resample_plan(len: usize, from_rate: u32, to_rate: u32) -> (r: Vec<ResampleStep>)
    requires
        from_rate > 0,
        to_rate > 0,
        len * to_rate <= u64::MAX,
        (len as int) * (to_rate as int) / (from_rate as int) <= usize::MAX,
    ensures
        r@.len() == resample_out_len(len as int, from_rate as int, to_rate as int),
        forall|i: int|
            0 <= i < r@.len() ==> (#[trigger] r@[i]).index == resample_index(
                i,
                from_rate as int,
                to_rate as int,
            ) && r@[i].index < len && r@[i].frac_num == resample_frac(
                i,
                len as int,
                from_rate as int,
                to_rate as int,
            ),
        from_rate == to_rate ==> forall|i: int|
            0 <= i < r@.len() ==> (#[trigger] r@[i]).index == i && r@[i].frac_num == 0,
{
    let from64 = from_rate as u64;
    let to64 = to_rate as u64;
    let out_len_64 = (len as u64) * to64 / from64;
    let out_len = out_len_64 as usize;
    proof {
        lemma_fundamental_div_mod((len as int) * (to_rate as int), from_rate as int);
        lemma_mod_bound((len as int) * (to_rate as int), from_rate as int);
    }
    let mut r: Vec<ResampleStep> = Vec::new();
    let mut i: usize = 0;
    while i < out_len
        invariant
            i <= out_len,
            out_len == resample_out_len(len as int, from_rate as int, to_rate as int),
            r@.len() == i,
            forall|j: int|
                0 <= j < i ==> (#[trigger] r@[j]).index == resample_index(
                    j,
                    from_rate as int,
                    to_rate as int,
                ) && r@[j].index < len && r@[j].frac_num == resample_frac(
                    j,
                    len as int,
                    from_rate as int,
                    to_rate as int,
                ),
        decreases out_len - i,
    {
        proof {
            assert((i as int) * (from_rate as int) < (len as int) * (to_rate as int)) by (nonlinear_arith)
                requires
                    i < (len as int) * (to_rate as int) / (from_rate as int),
                    from_rate > 0,
                    to_rate > 0,
            ;
            assert((i as int) * (from_rate as int) / (to_rate as int) < (len as int)) by (nonlinear_arith)
                requires
                    (i as int) * (from_rate as int) < (len as int) * (to_rate as int),
                    to_rate > 0,
            ;
            lemma_mod_bound((i as int) * (from_rate as int), to_rate as int);
        }
        let pos = (i as u64) * from64;
        let idx = (pos / to64) as usize;
        let rem = (pos % to64) as u32;
        let frac = if idx + 1 < len {
            rem
        } else {
            0
        };
        r.push(ResampleStep { index: idx, frac_num: frac });
        i = i + 1;
    }
    proof {
        if from_rate == to_rate {
            assert forall|i: int| 0 <= i < r@.len() implies (#[trigger] r@[i]).index == i
                && r@[i].frac_num == 0 by {
                assert(i * (from_rate as int) / (to_rate as int) == i && (i * (
                from_rate as int)) % (to_rate as int) == 0) by (nonlinear_arith)
                    requires
                        from_rate == to_rate,
                        to_rate > 0,
                        i >= 0,
                ;
                if r@[i].index + 1 < len {
                }
            }
        }
    }
    r
}

/// Resampling between equal rates is the identity: the plan is as long
/// as the input and each step takes its own source sample unchanged, so
/// applying it returns the input as it was.
pub proof fn lemma_equal_rates_identity(len: int, rate: int)
    requires
        len >= 0,
        rate > 0,
    ensures
        resample_out_len(len, rate, rate) == len,
        forall|i: int|
            0 <= i < len ==> #[trigger] resample_index(i, rate, rate) == i && resample_frac(
                i,
                len,
                rate,
                rate,
            ) == 0,
{
    assert(len * rate / rate == len) by (nonlinear_arith)
        requires
            rate > 0,
            len >= 0,
    ;
    assert forall|i: int| 0 <= i < len implies #[trigger] resample_index(i, rate, rate) == i
        && resample_frac(i, len, rate, rate) == 0 by {
        assert(i * rate / rate == i && (i * rate) % rate == 0) by (nonlinear_arith)
            requires
                rate > 0,
                i >= 0,
        ;
    }
}

} // verus!
