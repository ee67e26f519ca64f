//! Noise-suppression framing and the hysteresis voice detector.

use voxai::noise::{NoiseReducer, RNNOISE_FRAME_SIZE};
use voxai::vad::{VadMode, VoiceActivityDetector};

fn bits(v: Vec<f32>) -> Vec<u32> {
    v.into_iter().map(f32::to_bits).collect()
}

#[test]
fn test_noise_reducer_creation() {
    let reducer = NoiseReducer::new();
    assert!(reducer.is_enabled());
}

#[test]
fn test_enable_disable() {
    let mut reducer = NoiseReducer::new();

    assert!(reducer.is_enabled());

    reducer.disable();
    assert!(!reducer.is_enabled());

    reducer.enable();
    assert!(reducer.is_enabled());
}

#[test]
fn test_process_disabled() {
    let mut reducer = NoiseReducer::new();
    reducer.disable();

    let input = bits(vec![0.5; 1000]);
    let output = reducer.process(&input);

    // Should return input unchanged when disabled
    assert_eq!(output, input);
}

#[test]
fn test_process_multiple_frames() {
    let mut reducer = NoiseReducer::new();

    // Create 2 frames worth of data
    let input = bits(vec![0.1; RNNOISE_FRAME_SIZE * 2]);
    let output = reducer.process(&input);

    // Should process 2 complete frames
    assert_eq!(output.len(), RNNOISE_FRAME_SIZE * 2);
}

#[test]
fn test_process_incomplete_frame() {
    let mut reducer = NoiseReducer::new();

    // Create less than one frame
    let input = bits(vec![0.1; RNNOISE_FRAME_SIZE / 2]);
    let output = reducer.process(&input);

    // Should not process incomplete frame
    assert_eq!(output.len(), 0);

    // Complete the frame
    let input2 = bits(vec![0.1; RNNOISE_FRAME_SIZE / 2]);
    let output2 = reducer.process(&input2);

    // Now should have processed one complete frame
    assert_eq!(output2.len(), RNNOISE_FRAME_SIZE);
}

#[test]
fn test_required_sample_rate() {
    assert_eq!(NoiseReducer::required_sample_rate(), 48000);
}

#[test]
fn noise_reduction_test_reset() {
    let mut reducer = NoiseReducer::new();

    // Add some data
    let input = bits(vec![0.1; RNNOISE_FRAME_SIZE / 2]);
    let _ = reducer.process(&input);

    // Reset should clear buffer
    reducer.reset();

    // Buffer should be empty, so processing same data again should return nothing
    let input2 = bits(vec![0.1; RNNOISE_FRAME_SIZE / 2]);
    let output = reducer.process(&input2);
    assert_eq!(output.len(), 0);
}

#[test]
fn test_process_with_noise() {
    let mut reducer = NoiseReducer::new();

    // Create some noisy audio
    let mut input: Vec<u32> = Vec::with_capacity(RNNOISE_FRAME_SIZE);
    for i in 0..RNNOISE_FRAME_SIZE {
        input.push(((i as f32 / 100.0).sin() * 0.1).to_bits());
    }

    let output = reducer.process(&input);

    // Should produce one frame of output
    assert_eq!(output.len(), RNNOISE_FRAME_SIZE);
}

#[test]
fn test_frames_come_out_in_order() {
    let mut reducer = NoiseReducer::new();
    let input: Vec<u32> = (0..RNNOISE_FRAME_SIZE as u32 + 10).collect();
    let output = reducer.process(&input);
    assert_eq!(output, (0..RNNOISE_FRAME_SIZE as u32).collect::<Vec<u32>>());
    // the 10 remaining samples stay buffered for the next call
    let output2 = reducer.process(&(0..470u32).map(|x| x + 1000).collect());
    assert_eq!(output2.len(), RNNOISE_FRAME_SIZE);
    assert_eq!(&output2[..10], &[480, 481, 482, 483, 484, 485, 486, 487, 488, 489]);
}

#[test]
fn test_vad_creation() {
    let vad = VoiceActivityDetector::new();
    assert!(vad.is_ok());

    let vad = vad.unwrap();
    assert_eq!(vad.sample_rate(), 16000);
}

#[test]
fn test_vad_modes() {
    let vad = VoiceActivityDetector::with_mode_and_rate(VadMode::Quality, 16000);
    assert!(vad.is_ok());

    let mut vad = vad.unwrap();

    // Change mode - just test that it doesn't panic
    vad.set_mode(VadMode::VeryAggressive);
}

#[test]
fn test_invalid_sample_rate() {
    let vad = VoiceActivityDetector::with_mode_and_rate(VadMode::Quality, 44100);
    assert!(vad.is_err());
}

#[test]
fn test_silence_detection() {
    let mut vad = VoiceActivityDetector::new().unwrap();

    // 10ms of silence at 16kHz = 160 samples
    let silence = vec![0i16; 160];

    // Initially should not detect speech (need consecutive frames)
    let result = vad.is_speech(&silence);
    assert!(result.is_ok());
}

#[test]
fn test_frame_size_validation() {
    let mut vad = VoiceActivityDetector::new().unwrap();

    // Valid frame sizes for 16kHz: 160 (10ms), 320 (20ms), 480 (30ms)
    let valid_frame = vec![0i16; 160];
    assert!(vad.is_speech(&valid_frame).is_ok());

    // Invalid frame size
    let invalid_frame = vec![0i16; 100];
    assert!(vad.is_speech(&invalid_frame).is_err());
}

#[test]
fn test_valid_frame_sizes() {
    let vad = VoiceActivityDetector::new().unwrap();
    let sizes = vad.get_valid_frame_sizes();

    // For 16kHz: 160, 320, 480
    assert_eq!(sizes, vec![160, 320, 480]);
}

#[test]
fn test_hysteresis_thresholds() {
    let mut vad = VoiceActivityDetector::new().unwrap();

    // Set custom thresholds
    vad.set_speech_threshold(5);
    vad.set_silence_threshold(15);

    // Reset counters
    vad.reset();
    assert_eq!(vad.speech_frames, 0);
    assert_eq!(vad.silence_frames, 0);
}

#[test]
fn test_all_sample_rates() {
    for &rate in &[8000u32, 16000, 32000, 48000] {
        let vad = VoiceActivityDetector::with_mode_and_rate(VadMode::Quality, rate);
        assert!(vad.is_ok(), "Should support {}Hz", rate);

        let vad = vad.unwrap();
        assert_eq!(vad.sample_rate(), rate);
    }
}

#[test]
fn test_speech_pattern() {
    let mut vad = VoiceActivityDetector::new().unwrap();
    vad.set_speech_threshold(2); // Lower threshold for testing

    // Create a simple audio pattern (sine wave)
    let mut audio = Vec::new();
    for i in 0..160 {
        // 10ms @ 16kHz
        let sample = ((i as f32 / 160.0) * std::f32::consts::PI * 2.0).sin();
        audio.push((sample * 1000.0) as i16);
    }

    // Process the audio
    let result = vad.is_speech(&audio);
    assert!(result.is_ok());
}

#[test]
fn vad_test_reset() {
    let mut vad = VoiceActivityDetector::new().unwrap();

    // Process some frames
    let frame = vec![100i16; 160];
    let _ = vad.is_speech(&frame);
    let _ = vad.is_speech(&frame);

    // Reset should clear counters
    vad.reset();

    assert_eq!(vad.speech_frames, 0);
    assert_eq!(vad.silence_frames, 0);
}

#[test]
fn test_hysteresis_onset() {
    // speech_threshold = 3: after 2 raw-speech frames the detector is still
    // closed, after the 3rd it opens and stays open while speech goes on.
    let mut vad = VoiceActivityDetector::new().unwrap();
    assert!(!vad.apply_raw_decision(true));
    assert!(!vad.apply_raw_decision(true));
    assert!(vad.apply_raw_decision(true));
    assert!(vad.apply_raw_decision(true));
    assert_eq!(vad.speech_frames, 4);
    assert_eq!(vad.silence_frames, 0);
}

#[test]
fn test_output_closes_after_silence_threshold() {
    let mut vad = VoiceActivityDetector::new().unwrap();
    for _ in 0..3 {
        vad.apply_raw_decision(true);
    }
    assert_eq!(vad.speech_frames, 3);
    for _ in 0..10 {
        vad.apply_raw_decision(false);
    }
    assert_eq!(vad.speech_frames, 0);
    assert_eq!(vad.silence_frames, 10);
    assert!(!vad.apply_raw_decision(false));
}
