//! Hysteresis-filtered voice activity detection.
//!
//! A per-frame classifier (WebRTC VAD) yields a raw speech/silence
//! decision for each fixed-duration frame; two consecutive-frame counters
//! turn those raw decisions into a stable detector that opens only after
//! `speech_threshold` consecutive speech frames and closes only after
//! `silence_threshold` consecutive silence frames, suppressing flicker at
//! speech boundaries.

use vstd::prelude::*;

verus! {

/// Aggressiveness of the underlying per-frame classifier.
#[derive(Debug, Clone, Copy, PartialEq, Eq, Structural)]
pub enum VadMode {
    Quality,
    LowBitrate,
    Aggressive,
    VeryAggressive,
}

/// Contract violations reported by the detector: an unsupported sample rate
/// at construction, a frame of the wrong length, or a classifier failure.
#[derive(Debug, Clone, Copy, PartialEq, Eq, Structural)]
pub enum VadError {
    UnsupportedSampleRate,
    InvalidFrameSize,
    ClassifierFailure,
}

#[verifier::external_type_specification]
#[verifier::external_body]
pub struct ExVad(webrtc_vad::Vad);

/// Relies on `webrtc_vad::Vad::new_with_rate_and_mode`: constructs a
/// classifier instance for one of the four supported rates and a mode.
/// The body only translates the plain rate and mode into the crate's
/// enums.
#[verifier::external_body]
fn new_classifier(rate: u32, mode: VadMode) -> webrtc_vad::Vad
    requires
        rate_supported(rate),
{
    let r = match rate {
        8000 => webrtc_vad::SampleRate::Rate8kHz,
        16000 => webrtc_vad::SampleRate::Rate16kHz,
        32000 => webrtc_vad::SampleRate::Rate32kHz,
        _ => webrtc_vad::SampleRate::Rate48kHz,
    };
    let m = match mode {
        VadMode::Quality => webrtc_vad::VadMode::Quality,
        VadMode::LowBitrate => webrtc_vad::VadMode::LowBitrate,
        VadMode::Aggressive => webrtc_vad::VadMode::Aggressive,
        VadMode::VeryAggressive => webrtc_vad::VadMode::VeryAggressive,
    };
    webrtc_vad::Vad::new_with_rate_and_mode(r, m)
}

/// Relies on `webrtc_vad::Vad::is_voice_segment`: `Ok` carries the raw
/// per-frame decision, `Err` a rejected frame length. The decision
/// depends on the classifier's internal state, so nothing is assumed
/// about the outcome. The callee reads the frame's first sample, so the
/// frame must not be empty.
#[verifier::external_body]
fn classify_frame(vad: &mut webrtc_vad::Vad, frame: &Vec<i16>) -> (r: Result<bool, ()>)
    requires
        frame@.len() > 0,
{
    vad.is_voice_segment(frame.as_slice())
}

/// Relies on `webrtc_vad::Vad::set_mode`: changes only the classifier's
/// aggressiveness. The body only translates the mode.
#[verifier::external_body]
fn classifier_set_mode(vad: &mut webrtc_vad::Vad, mode: VadMode) {
    let m = match mode {
        VadMode::Quality => webrtc_vad::VadMode::Quality,
        VadMode::LowBitrate => webrtc_vad::VadMode::LowBitrate,
        VadMode::Aggressive => webrtc_vad::VadMode::Aggressive,
        VadMode::VeryAggressive => webrtc_vad::VadMode::VeryAggressive,
    };
    vad.set_mode(m);
}

/// The sample rates the classifier supports.
pub open spec fn rate_supported(rate: u32) -> bool {
    rate == 8000 || rate == 16000 || rate == 32000 || rate == 48000
}

/// Valid frame lengths at `rate`: exactly 10, 20 or 30 ms of samples.
pub open spec fn valid_frame_len(rate: u32, len: int) -> bool {
    len == rate / 100 || len == 2 * (rate / 100) || len == 3 * (rate / 100)
}

/// One update of the hysteresis counters: a raw speech decision advances
/// the speech run and resets the silence run; a raw silence decision does
/// the opposite.
pub open spec fn hysteresis_step(speech: nat, silence: nat, raw_speech: bool) -> (nat, nat) {
    if raw_speech {
        ((speech + 1) as nat, 0nat)
    } else {
        (0nat, (silence + 1) as nat)
    }
}

/// The counters after a whole run of raw decisions.
pub open spec fn hysteresis_run(speech: nat, silence: nat, raws: Seq<bool>) -> (nat, nat)
    decreases raws.len(),
{
    if raws.len() == 0 {
        (speech, silence)
    } else {
        let next = hysteresis_step(speech, silence, raws[0]);
        hysteresis_run(next.0, next.1, raws.skip(1))
    }
}

/// The detector is open iff enough consecutive speech frames have been seen
/// and not enough consecutive silence frames have accumulated.
pub open spec fn hysteresis_open(speech: nat, silence: nat, speech_threshold: nat, silence_threshold: nat) -> bool {
    speech >= speech_threshold && silence < silence_threshold
}

/// Voice activity detector: the classifier plus the two hysteresis counters
/// and their thresholds. Owned by a single processing thread.
pub struct VoiceActivityDetector {
    vad: webrtc_vad::Vad,
    sample_rate: u32,
    /// Length of the current run of consecutive raw-speech frames.
    pub speech_frames: usize,
    /// Length of the current run of consecutive raw-silence frames.
    pub silence_frames: usize,
    speech_threshold: usize,
    silence_threshold: usize,
}

impl VoiceActivityDetector {
    /// The configured sample rate, one of the four supported ones.
    pub closed spec fn spec_sample_rate(&self) -> u32 {
        self.sample_rate
    }

    /// Length of the current run of consecutive raw-speech frames.
    pub closed spec fn spec_speech_frames(&self) -> nat {
        self.speech_frames as nat
    }

    /// Length of the current run of consecutive raw-silence frames.
    pub closed spec fn spec_silence_frames(&self) -> nat {
        self.silence_frames as nat
    }

    /// Consecutive speech frames needed before the detector opens.
    pub closed spec fn spec_speech_threshold(&self) -> nat {
        self.speech_threshold as nat
    }

    /// Consecutive silence frames needed before the detector closes.
    pub closed spec fn spec_silence_threshold(&self) -> nat {
        self.silence_threshold as nat
    }

    /// The configured rate is supported.
    pub closed spec fn wf(&self) -> bool {
        rate_supported(self.sample_rate)
    }

    /// Detector with default settings: quality mode at 16 kHz, opening after
    /// 3 speech frames and closing after 10 silence frames.
    pub fn new() -> (r: Result<VoiceActivityDetector, VadError>)
        ensures
            r is Ok,
            ({
                let v = r.unwrap();
                &&& v.wf()
                &&& v.spec_sample_rate() == 16000u32
                &&& v.spec_speech_frames() == 0
                &&& v.spec_silence_frames() == 0
                &&& v.spec_speech_threshold() == 3
                &&& v.spec_silence_threshold() == 10
            }),
    {
        VoiceActivityDetector::with_mode_and_rate(VadMode::Quality, 16000)
    }

    /// Detector with a chosen mode and rate. An unsupported rate is rejected.
    pub fn with_mode_and_rate(mode: VadMode, sample_rate: u32) -> (r: Result<
        VoiceActivityDetector,
        VadError,
    >)
        ensures
            r is Ok <==> rate_supported(sample_rate),
            r is Err ==> r == Err::<VoiceActivityDetector, VadError>(VadError::UnsupportedSampleRate),
            r is Ok ==> ({
                let v = r.unwrap();
                &&& v.wf()
                &&& v.spec_sample_rate() == sample_rate
                &&& v.spec_speech_frames() == 0
                &&& v.spec_silence_frames() == 0
                &&& v.spec_speech_threshold() == 3
                &&& v.spec_silence_threshold() == 10
            }),
    {
        if !(sample_rate == 8000 || sample_rate == 16000 || sample_rate == 32000 || sample_rate
            == 48000) {
            return Err(VadError::UnsupportedSampleRate);
        }
        let vad = new_classifier(sample_rate, mode);
        Ok(
            VoiceActivityDetector {
                vad,
                sample_rate,
                speech_frames: 0,
                silence_frames: 0,
                speech_threshold: 3,
                silence_threshold: 10,
            },
        )
    }

    /// Classify one frame and update the detector. A frame that is not
    /// exactly 10, 20 or 30 ms long is a usage error and leaves the detector
    /// untouched. Otherwise the raw classifier decision advances the
    /// counters by one `hysteresis_step` and the detector's current opening
    /// is returned; if the classifier rejects the frame the counters are
    /// likewise untouched.
    pub fn is_speech(&mut self, audio_frame: &Vec<i16>) -> (r: Result<bool, VadError>)
        requires
            old(self).wf(),
            old(self).spec_speech_frames() < usize::MAX,
            old(self).spec_silence_frames() < usize::MAX,
        ensures
            final(self).wf(),
            final(self).spec_sample_rate() == old(self).spec_sample_rate(),
            final(self).spec_speech_threshold() == old(self).spec_speech_threshold(),
            final(self).spec_silence_threshold() == old(self).spec_silence_threshold(),
            !valid_frame_len(old(self).spec_sample_rate(), audio_frame@.len() as int) ==> r
                == Err::<bool, VadError>(VadError::InvalidFrameSize) && final(self).spec_speech_frames()
                == old(self).spec_speech_frames() && final(self).spec_silence_frames() == old(self).spec_silence_frames(),
            valid_frame_len(old(self).spec_sample_rate(), audio_frame@.len() as int) ==> match r {
                Ok(open) => {
                    let after = (final(self).spec_speech_frames(), final(self).spec_silence_frames());
                    &&& (after == hysteresis_step(
                        old(self).spec_speech_frames(),
                        old(self).spec_silence_frames(),
                        true,
                    ) || after == hysteresis_step(
                        old(self).spec_speech_frames(),
                        old(self).spec_silence_frames(),
                        false,
                    ))
                    &&& open == hysteresis_open(
                        after.0,
                        after.1,
                        old(self).spec_speech_threshold(),
                        old(self).spec_silence_threshold(),
                    )
                },
                Err(e) => e == VadError::ClassifierFailure && final(self).spec_speech_frames() == old(self).spec_speech_frames() && final(self).spec_silence_frames() == old(self).spec_silence_frames(),
            },
    {
        if !self.check_frame_size(audio_frame.len()) {
            return Err(VadError::InvalidFrameSize);
        }
        let raw = match classify_frame(&mut self.vad, audio_frame) {
            Ok(b) => b,
            Err(_) => {
                return Err(VadError::ClassifierFailure);
            },
        };
        Ok(self.apply_raw_decision(raw))
    }

    /// Advance the detector by one raw classifier decision and report whether
    /// the detector is open afterwards. This is the whole hysteresis rule:
    /// speech extends the speech run and clears the silence run, silence
    /// does the opposite, and the detector is open iff the speech run has
    /// reached `speech_threshold` while the silence run has not reached
    /// `silence_threshold`.
    pub fn apply_raw_decision(&mut self, has_speech: bool) -> (open: bool)
        requires
            old(self).spec_speech_frames() < usize::MAX,
            old(self).spec_silence_frames() < usize::MAX,
        ensures
            final(self).wf() == old(self).wf(),
            final(self).spec_sample_rate() == old(self).spec_sample_rate(),
            final(self).spec_speech_threshold() == old(self).spec_speech_threshold(),
            final(self).spec_silence_threshold() == old(self).spec_silence_threshold(),
            (final(self).spec_speech_frames(), final(self).spec_silence_frames())
                == hysteresis_step(
                old(self).spec_speech_frames(),
                old(self).spec_silence_frames(),
                has_speech,
            ),
            open == hysteresis_open(
                final(self).spec_speech_frames(),
                final(self).spec_silence_frames(),
                old(self).spec_speech_threshold(),
                old(self).spec_silence_threshold(),
            ),
    {
        if has_speech {
            self.speech_frames = self.speech_frames + 1;
            self.silence_frames = 0;
        } else {
            self.silence_frames = self.silence_frames + 1;
            self.speech_frames = 0;
        }
        self.speech_frames >= self.speech_threshold && self.silence_frames
            < self.silence_threshold
    }

    /// Change the classifier's aggressiveness; the detector state is kept.
    pub fn set_mode(&mut self, mode: VadMode)
        ensures
            final(self).wf() == old(self).wf(),
            final(self).spec_sample_rate() == old(self).spec_sample_rate(),
            final(self).spec_speech_frames() == old(self).spec_speech_frames(),
            final(self).spec_silence_frames() == old(self).spec_silence_frames(),
            final(self).spec_speech_threshold() == old(self).spec_speech_threshold(),
            final(self).spec_silence_threshold() == old(self).spec_silence_threshold(),
    {
        classifier_set_mode(&mut self.vad, mode);
    }

    /// Set how many consecutive speech frames open the detector; takes effect
    /// on the next frame.
    pub fn set_speech_threshold(&mut self, threshold: usize)
        ensures
            final(self).wf() == old(self).wf(),
            final(self).spec_sample_rate() == old(self).spec_sample_rate(),
            final(self).spec_speech_frames() == old(self).spec_speech_frames(),
            final(self).spec_silence_frames() == old(self).spec_silence_frames(),
            final(self).spec_speech_threshold() == threshold,
            final(self).spec_silence_threshold() == old(self).spec_silence_threshold(),
    {
        self.speech_threshold = threshold;
    }

    /// Set how many consecutive silence frames close the detector; takes
    /// effect on the next frame.
    pub fn set_silence_threshold(&mut self, threshold: usize)
        ensures
            final(self).wf() == old(self).wf(),
            final(self).spec_sample_rate() == old(self).spec_sample_rate(),
            final(self).spec_speech_frames() == old(self).spec_speech_frames(),
            final(self).spec_silence_frames() == old(self).spec_silence_frames(),
            final(self).spec_speech_threshold() == old(self).spec_speech_threshold(),
            final(self).spec_silence_threshold() == threshold,
    {
        self.silence_threshold = threshold;
    }

    /// Zero both hysteresis counters without altering the thresholds.
    pub fn reset(&mut self)
        ensures
            final(self).wf() == old(self).wf(),
            final(self).spec_sample_rate() == old(self).spec_sample_rate(),
            final(self).spec_speech_frames() == 0,
            final(self).spec_silence_frames() == 0,
            final(self).spec_speech_threshold() == old(self).spec_speech_threshold(),
            final(self).spec_silence_threshold() == old(self).spec_silence_threshold(),
    {
        self.speech_frames = 0;
        self.silence_frames = 0;
    }

    /// The configured sample rate.
    pub fn sample_rate(&self) -> (r: u32)
        ensures
            r == self.spec_sample_rate(),
    {
        self.sample_rate
    }

    /// The three frame lengths the detector accepts at its rate: 10, 20 and
    /// 30 ms of samples.
    pub fn get_valid_frame_sizes(&self) -> (r: Vec<usize>)
        requires
            self.wf(),
        ensures
            r@.len() == 3,
            r@[0] == self.spec_sample_rate() / 100,
            r@[1] == 2 * (self.spec_sample_rate() / 100) as int,
            r@[2] == 3 * (self.spec_sample_rate() / 100) as int,
    {
        let base = (self.sample_rate / 100) as usize;
        let mut r: Vec<usize> = Vec::new();
        r.push(base);
        r.push(2 * base);
        r.push(3 * base);
        r
    }

    /// Whether `frame_len` is a valid frame length at the configured
    /// rate.
    fn check_frame_size(&self, frame_len: usize) -> (r: bool)
        requires
            self.wf(),
        ensures
            r == valid_frame_len(self.spec_sample_rate(), frame_len as int),
    {
        let base = (self.sample_rate / 100) as usize;
        frame_len == base || frame_len == 2 * base || frame_len == 3 * base
    }
}

/// Onset latency of the detector: starting from cleared counters, a run of
/// consecutive raw-speech frames leaves the speech counter at the run's
/// length, so the detector stays closed until the run reaches the speech
/// threshold and is open from then on.
pub proof fn lemma_onset_latency(k: nat, speech_threshold: nat, silence_threshold: nat)
    requires
        silence_threshold > 0,
    ensures
        ({
            let after = hysteresis_run(0, 0, Seq::new(k, |i: int| true));
            &&& after.0 == k
            &&& after.1 == 0
            &&& (hysteresis_open(after.0, after.1, speech_threshold, silence_threshold) <==> k
                >= speech_threshold)
        }),
{
    lemma_speech_run_from(0, 0, k);
}

/// A run of consecutive raw-speech frames adds its length to the speech
/// counter and clears the silence counter.
proof fn lemma_speech_run_from(speech: nat, silence: nat, k: nat)
    ensures
        k > 0 ==> hysteresis_run(speech, silence, Seq::new(k, |i: int| true)) == ((speech
            + k) as nat, 0nat),
        k == 0 ==> hysteresis_run(speech, silence, Seq::new(k, |i: int| true)) == (speech, silence),
    decreases k,
{
    let raws = Seq::new(k, |i: int| true);
    if k > 0 {
        assert(raws[0]);
        assert(raws.skip(1) =~= Seq::new((k - 1) as nat, |i: int| true));
        lemma_speech_run_from((speech + 1) as nat, 0, (k - 1) as nat);
    }
}

/// Hangover of the detector: whatever the counters hold, once a run of
/// consecutive raw-silence frames reaches the silence threshold the detector
/// is closed.
pub proof fn lemma_hangover(
    speech: nat,
    silence: nat,
    m: nat,
    speech_threshold: nat,
    silence_threshold: nat,
)
    requires
        m >= silence_threshold,
        m > 0,
    ensures
        ({
            let after = hysteresis_run(speech, silence, Seq::new(m, |i: int| false));
            &&& after.0 == 0
            &&& after.1 >= silence_threshold
            &&& !hysteresis_open(after.0, after.1, speech_threshold, silence_threshold)
        }),
{
    lemma_silence_run_from(speech, silence, m);
}

/// A run of consecutive raw-silence frames clears the speech counter and
/// adds its length to the silence counter.
proof fn lemma_silence_run_from(speech: nat, silence: nat, m: nat)
    ensures
        m > 0 ==> hysteresis_run(speech, silence, Seq::new(m, |i: int| false)) == (
            0nat,
            (silence + m) as nat,
        ),
        m == 0 ==> hysteresis_run(speech, silence, Seq::new(m, |i: int| false)) == (
            speech,
            silence,
        ),
    decreases m,
{
    let raws = Seq::new(m, |i: int| false);
    if m > 0 {
        assert(!raws[0]);
        assert(raws.skip(1) =~= Seq::new((m - 1) as nat, |i: int| false));
        lemma_silence_run_from(0, (silence + 1) as nat, (m - 1) as nat);
    }
}

} // verus!
