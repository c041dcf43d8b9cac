use audio_features::audio::{AudioFeatures, DEFAULT_SMOOTHING};
use audio_features::frame::FeatureFrame;
use audio_features::ring::FeatureRing;
use serde_json::Value;

fn lerp(smoothing: u32, prev: u32, next: u64) -> u32 {
    let a = f32::from_bits(smoothing);
    let blended = a * f32::from_bits(prev) + (1.0 - a) * (f64::from_bits(next) as f32);
    blended.to_bits()
}

fn payload_frame(text: &str) -> FeatureFrame {
    let payload: Value = serde_json::from_str(text).unwrap();
    FeatureFrame::from_payload(&payload).unwrap()
}

fn loudness_frame(raw: f64) -> FeatureFrame {
    FeatureFrame { onset: None, loudness: Some(raw.to_bits()), tristimulus: None, mfcc: None }
}

#[test]
fn new_state_is_zeroed() {
    let features = AudioFeatures::new();
    assert_eq!(features.current, FeatureFrame::empty());
    assert!(!features.onset);
    assert_eq!(f32::from_bits(features.loudness), 0.0);
    assert_eq!(features.tristimulus, [0u32; 3]);
    assert_eq!(features.mfcc, [0u32; 13]);
    assert_eq!(features.smoothing, DEFAULT_SMOOTHING);
    assert_eq!(f32::from_bits(features.smoothing), 0.6f32);
}

#[test]
fn coefficient_must_lie_between_zero_and_one() {
    let half = AudioFeatures::with_smoothing(0.5f32.to_bits()).unwrap();
    assert_eq!(f32::from_bits(half.smoothing), 0.5);
    assert_eq!(AudioFeatures { smoothing: DEFAULT_SMOOTHING, ..half }, AudioFeatures::new());
    assert!(AudioFeatures::with_smoothing(DEFAULT_SMOOTHING).is_some());
    assert!(AudioFeatures::with_smoothing(f32::MIN_POSITIVE.to_bits()).is_some());
    assert!(AudioFeatures::with_smoothing(1).is_some());
    assert!(AudioFeatures::with_smoothing(0.99999994f32.to_bits()).is_some());
    for outside in [0.0f32, -0.0, 1.0, 1.5, -0.5, f32::INFINITY, f32::NEG_INFINITY, f32::NAN] {
        assert!(AudioFeatures::with_smoothing(outside.to_bits()).is_none());
    }
}

#[test]
fn coefficient_patterns_are_exactly_the_open_unit_interval() {
    for bits in [0u32, 1, 0x007f_ffff, 0x0080_0000, 0x3f7f_ffff, 0x3f80_0000, 0x3f80_0001,
        0x7f7f_ffff, 0x7f80_0000, 0x7fc0_0000, 0x8000_0000, 0x8000_0001, 0xbf00_0000, 0xffff_ffff]
    {
        let x = f32::from_bits(bits);
        assert_eq!(AudioFeatures::with_smoothing(bits).is_some(), 0.0 < x && x < 1.0);
    }
}

#[test]
fn tick_on_an_empty_ring_changes_nothing() {
    let mut ring = FeatureRing::new();
    let mut features = AudioFeatures::new();
    features.onset = true;
    features.loudness = 0.25f32.to_bits();
    features.tristimulus = [1.0f32.to_bits(), 2.0f32.to_bits(), 3.0f32.to_bits()];
    features.mfcc[12] = 7.5f32.to_bits();
    let before = features;
    features.update(&mut ring, lerp);
    assert_eq!(features, before);
    features.update(&mut ring, lerp);
    assert_eq!(features, before);
    assert!(ring.is_empty());
}

#[test]
fn end_to_end_onset_and_loudness() {
    let mut ring = FeatureRing::new();
    let mut features = AudioFeatures::new();

    ring.push(payload_frame(r#"{"features":{"onset":[1.0],"loudness.mean":[0.2]}}"#));
    features.update(&mut ring, lerp);
    assert!(features.onset);
    let loudness = f32::from_bits(features.loudness);
    assert_eq!(loudness, (1.0f32 - 0.6f32) * 0.2f32);
    assert!((loudness - 0.08).abs() < 1e-6);
    assert_eq!(features.tristimulus, [0u32; 3]);
    assert_eq!(features.mfcc, [0u32; 13]);

    let after_first = features;
    features.update(&mut ring, lerp);
    assert_eq!(features, after_first);

    ring.push(payload_frame(r#"{"features":{"onset":[0.0]}}"#));
    features.update(&mut ring, lerp);
    assert!(!features.onset);
    assert_eq!(features.loudness, after_first.loudness);
    assert!((f32::from_bits(features.loudness) - 0.08).abs() < 1e-6);
}

#[test]
fn frame_without_loudness_still_updates_the_vectors() {
    let mut ring = FeatureRing::new();
    let mut features = AudioFeatures::new();
    features.loudness = 0.5f32.to_bits();
    ring.push(payload_frame(
        r#"{"features":{"tristimulus.mean":[1.0,0.5,0.25],
            "mfcc.mean":[13,12,11,10,9,8,7,6,5,4,3,2,1]}}"#,
    ));
    features.update(&mut ring, lerp);
    assert_eq!(f32::from_bits(features.loudness), 0.5);
    assert!(!features.onset);
    let raw = [1.0f32, 0.5, 0.25];
    for i in 0..3 {
        assert_eq!(f32::from_bits(features.tristimulus[i]), 0.6f32 * 0.0 + (1.0f32 - 0.6f32) * raw[i]);
    }
    for i in 0..13 {
        let expected = 0.6f32 * 0.0 + (1.0f32 - 0.6f32) * (13 - i) as f32;
        assert_eq!(f32::from_bits(features.mfcc[i]), expected);
    }
}

#[test]
fn each_component_is_smoothed_by_itself() {
    let mut ring = FeatureRing::new();
    let mut features = AudioFeatures::new();
    features.tristimulus = [1.0f32.to_bits(), 2.0f32.to_bits(), 4.0f32.to_bits()];
    ring.push(FeatureFrame {
        onset: None,
        loudness: None,
        tristimulus: Some([0.0f64.to_bits(), 2.0f64.to_bits(), 8.0f64.to_bits()]),
        mfcc: None,
    });
    features.update(&mut ring, lerp);
    let prev = [1.0f32, 2.0, 4.0];
    let raw = [0.0f32, 2.0, 8.0];
    for i in 0..3 {
        assert_eq!(f32::from_bits(features.tristimulus[i]), 0.6f32 * prev[i] + (1.0f32 - 0.6f32) * raw[i]);
    }
    assert_eq!(features.mfcc, [0u32; 13]);
    assert_eq!(features.loudness, 0);
}

#[test]
fn onset_is_overwritten_not_smoothed() {
    let mut ring = FeatureRing::new();
    let mut features = AudioFeatures::new();
    let onset = |raw: f64| FeatureFrame {
        onset: Some(raw.to_bits()),
        loudness: None,
        tristimulus: None,
        mfcc: None,
    };
    for (raw, expected) in [(1.0, true), (0.0, false), (0.001, true), (-0.0, false), (-2.0, true)] {
        ring.push(onset(raw));
        features.update(&mut ring, lerp);
        assert_eq!(features.onset, expected);
    }
    ring.push(onset(1.0));
    features.update(&mut ring, lerp);
    ring.push(loudness_frame(0.5));
    features.update(&mut ring, lerp);
    assert!(features.onset);
}

#[test]
fn update_keeps_the_frame_it_consumed() {
    let mut ring = FeatureRing::new();
    let mut features = AudioFeatures::new();
    let first = loudness_frame(0.25);
    let second = payload_frame(r#"{"features":{"onset":[1.0]}}"#);
    ring.push(first);
    ring.push(second);
    features.update(&mut ring, lerp);
    assert_eq!(features.current, first);
    assert_eq!(ring.len(), 1);
    features.update(&mut ring, lerp);
    assert_eq!(features.current, second);
    assert!(ring.is_empty());
    features.update(&mut ring, lerp);
    assert_eq!(features.current, second);
}

#[test]
fn update_uses_the_state_s_own_coefficient() {
    let mut ring = FeatureRing::new();
    let mut features = AudioFeatures::new();
    features.smoothing = 0.25f32.to_bits();
    features.loudness = 4.0f32.to_bits();
    ring.push(loudness_frame(8.0));
    features.update(&mut ring, lerp);
    assert_eq!(f32::from_bits(features.loudness), 0.25 * 4.0 + 0.75 * 8.0);
    assert_eq!(features.smoothing, 0.25f32.to_bits());
}

#[test]
fn update_hands_the_blend_its_three_arguments() {
    let mut ring = FeatureRing::new();
    let mut features = AudioFeatures::new();
    features.loudness = 11;
    ring.push(FeatureFrame { onset: None, loudness: Some(500), tristimulus: None, mfcc: None });
    features.update(&mut ring, |smoothing: u32, prev: u32, next: u64| {
        assert_eq!(smoothing, DEFAULT_SMOOTHING);
        assert_eq!(prev, 11);
        assert_eq!(next, 500);
        42
    });
    assert_eq!(features.loudness, 42);
}

#[test]
fn constant_input_converges_without_overshoot() {
    for (alpha, start, raw) in [(0.6f32, 0.0f32, 1.0f64), (0.9, 5.0, -3.0), (0.1, -2.0, 2.0), (0.5, 1.0, 1.0)] {
        let mut ring = FeatureRing::new();
        let mut features = AudioFeatures::new();
        features.smoothing = alpha.to_bits();
        features.loudness = start.to_bits();
        let target = raw as f32;
        let mut distance = (start - target).abs();
        let mut factor = 1.0f32;
        for _ in 0..20 {
            ring.push(loudness_frame(raw));
            features.update(&mut ring, lerp);
            let value = f32::from_bits(features.loudness);
            let next_distance = (value - target).abs();
            assert!(next_distance <= distance);
            assert!((value - target) * (start - target) >= 0.0);
            factor *= alpha;
            let expected = factor * (start - target).abs();
            assert!((next_distance - expected).abs() <= 1e-5 * (1.0 + (start - target).abs()));
            distance = next_distance;
        }
    }
}
