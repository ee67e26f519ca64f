//! Channel mixdown layout and the resampling plan.

use voxai::normalize::{mono_frame_count, resample_plan, CaptureConfig};

#[test]
fn test_capture_config_default() {
    let c = CaptureConfig::default();
    assert_eq!(c.sample_rate, 16000);
    assert_eq!(c.channels, 1);
}

#[test]
fn test_stereo_frame_count() {
    // 6 interleaved samples over 2 channels mix down to 3 mono samples
    assert_eq!(mono_frame_count(6, 2), 3);
    // a trailing incomplete frame is dropped
    assert_eq!(mono_frame_count(7, 2), 3);
    assert_eq!(mono_frame_count(0, 2), 0);
}

#[test]
fn test_resample_plan_lengths() {
    // Upsample 4 -> 8 output positions
    assert_eq!(resample_plan(4, 4, 8).len(), 8);

    // Downsample 4 -> 2 output positions
    assert_eq!(resample_plan(4, 4, 2).len(), 2);
}

#[test]
fn test_resample_plan_identity_when_rates_match() {
    let plan = resample_plan(4, 4, 4);
    assert_eq!(plan.len(), 4);
    for (i, step) in plan.iter().enumerate() {
        assert_eq!(step.index, i);
        assert_eq!(step.frac_num, 0);
    }
}

#[test]
fn test_resample_plan_positions() {
    // 4 samples at rate 4 to rate 8: position i reads source i*4/8
    let plan = resample_plan(4, 4, 8);
    let indices: Vec<usize> = plan.iter().map(|s| s.index).collect();
    assert_eq!(indices, vec![0, 0, 1, 1, 2, 2, 3, 3]);
    // even positions fall exactly on source samples
    assert_eq!(plan[0].frac_num, 0);
    assert_eq!(plan[2].frac_num, 0);
    // odd positions blend halfway: 4/8
    assert_eq!(plan[1].frac_num, 4);
    assert_eq!(plan[3].frac_num, 4);
    // the last position has no successor and takes its sample unchanged
    assert_eq!(plan[7].frac_num, 0);

    // downsampling by two reads every other source sample exactly
    let down = resample_plan(4, 4, 2);
    assert_eq!(down[0].index, 0);
    assert_eq!(down[1].index, 2);
    assert_eq!(down[0].frac_num, 0);
    assert_eq!(down[1].frac_num, 0);
}
