use audio_features::frame::{decode, DecodeError, FeatureFrame, MFCC_LEN, TRISTIMULUS_LEN};
use serde_json::Value;

fn value_of(text: &str) -> Value {
    serde_json::from_str(text).unwrap()
}

fn bits(x: f64) -> u64 {
    x.to_bits()
}

#[test]
fn component_counts() {
    assert_eq!(TRISTIMULUS_LEN, 3);
    assert_eq!(MFCC_LEN, 13);
}

#[test]
fn empty_frame_carries_nothing() {
    let frame = FeatureFrame::empty();
    assert_eq!(frame.onset, None);
    assert_eq!(frame.loudness, None);
    assert_eq!(frame.tristimulus, None);
    assert_eq!(frame.mfcc, None);
}

#[test]
fn features_are_read_by_their_keys() {
    let features = value_of(
        r#"{"onset":[1.0],"loudness.mean":[0.2,0.9],"tristimulus.mean":[0.1,0.2,0.3],
            "mfcc.mean":[1,2,3,4,5,6,7,8,9,10,11,12,13,14]}"#,
    );
    let frame = FeatureFrame::from_features(&features);
    assert_eq!(frame.onset, Some(bits(1.0)));
    assert_eq!(frame.loudness, Some(bits(0.2)));
    assert_eq!(frame.tristimulus, Some([bits(0.1), bits(0.2), bits(0.3)]));
    let mut expected = [0u64; 13];
    for i in 0..13 {
        expected[i] = bits((i + 1) as f64);
    }
    assert_eq!(frame.mfcc, Some(expected));
}

#[test]
fn integers_are_read_as_doubles() {
    let features = value_of(r#"{"onset":[1],"loudness.mean":[-3]}"#);
    let frame = FeatureFrame::from_features(&features);
    assert_eq!(frame.onset, Some(bits(1.0)));
    assert_eq!(frame.loudness, Some(bits(-3.0)));
}

#[test]
fn missing_key_leaves_only_that_feature_out() {
    let features = value_of(r#"{"onset":[0.0],"tristimulus.mean":[0.5,0.25,0.125]}"#);
    let frame = FeatureFrame::from_features(&features);
    assert_eq!(frame.onset, Some(bits(0.0)));
    assert_eq!(frame.loudness, None);
    assert_eq!(frame.tristimulus, Some([bits(0.5), bits(0.25), bits(0.125)]));
    assert_eq!(frame.mfcc, None);
}

#[test]
fn entry_of_another_shape_is_left_out() {
    let features = value_of(
        r#"{"onset":1.0,"loudness.mean":[],"tristimulus.mean":[0.1,0.2],
            "mfcc.mean":[1,2,3,4,5,6,7,8,9,10,11,12,"x"]}"#,
    );
    assert_eq!(FeatureFrame::from_features(&features), FeatureFrame::empty());
    let not_numbers = value_of(r#"{"onset":["1"],"loudness.mean":[null],"tristimulus.mean":[1,true,3]}"#);
    assert_eq!(FeatureFrame::from_features(&not_numbers), FeatureFrame::empty());
}

#[test]
fn features_that_are_no_object_give_an_empty_frame() {
    assert_eq!(FeatureFrame::from_features(&value_of("[1,2,3]")), FeatureFrame::empty());
    assert_eq!(FeatureFrame::from_features(&value_of("null")), FeatureFrame::empty());
}

#[test]
fn payload_needs_features() {
    let payload = value_of(r#"{"features":{"onset":[1.0]}}"#);
    let frame = FeatureFrame::from_payload(&payload).unwrap();
    assert_eq!(frame.onset, Some(bits(1.0)));
    assert_eq!(FeatureFrame::from_payload(&value_of(r#"{"feature":{}}"#)), None);
    assert_eq!(FeatureFrame::from_payload(&value_of("[]")), None);
    assert_eq!(FeatureFrame::from_payload(&value_of(r#"{"features":[1.0]}"#)), None);
    assert_eq!(FeatureFrame::from_payload(&value_of(r#"{"features":null}"#)), None);
    assert_eq!(FeatureFrame::from_payload(&value_of(r#"{"features":{}}"#)), Some(FeatureFrame::empty()));
}

#[test]
fn message_needs_payload_and_features() {
    let message = value_of(r#"{"type":"features","payload":{"features":{"loudness.mean":[0.5]}}}"#);
    let frame = FeatureFrame::from_message(&message).unwrap();
    assert_eq!(frame.loudness, Some(bits(0.5)));
    assert_eq!(frame.onset, None);
    assert_eq!(FeatureFrame::from_message(&value_of(r#"{"features":{}}"#)), None);
    assert_eq!(FeatureFrame::from_message(&value_of(r#"{"payload":{}}"#)), None);
    assert_eq!(FeatureFrame::from_message(&value_of(r#"{"payload":7}"#)), None);
}

#[test]
fn decode_reads_a_message_text() {
    let frame = decode(r#"{"payload":{"features":{"onset":[1.0],"loudness.mean":[0.2]}}}"#).unwrap();
    assert_eq!(frame.onset, Some(bits(1.0)));
    assert_eq!(frame.loudness, Some(bits(0.2)));
    assert_eq!(frame.tristimulus, None);
    assert_eq!(frame.mfcc, None);
}

#[test]
fn decode_reports_text_that_is_not_json() {
    assert_eq!(decode("{\"payload\":"), Err(DecodeError::Syntax));
    assert_eq!(decode(""), Err(DecodeError::Syntax));
    assert_eq!(decode("not json"), Err(DecodeError::Syntax));
}

#[test]
fn decode_reports_a_message_of_another_shape() {
    assert_eq!(decode("null"), Err(DecodeError::Shape));
    assert_eq!(decode(r#"{"type":"hello"}"#), Err(DecodeError::Shape));
    assert_eq!(decode(r#"{"payload":{"onset":[1.0]}}"#), Err(DecodeError::Shape));
    assert_eq!(decode(r#"{"payload":{"features":"onset"}}"#), Err(DecodeError::Shape));
    assert_eq!(decode(r#"{"payload":[{"features":{}}]}"#), Err(DecodeError::Shape));
}

#[test]
fn decode_accepts_features_without_tracked_keys() {
    assert_eq!(decode(r#"{"payload":{"features":{}}}"#), Ok(FeatureFrame::empty()));
    assert_eq!(decode(r#"{"payload":{"features":{"pitch.mean":[440.0]}}}"#), Ok(FeatureFrame::empty()));
}
