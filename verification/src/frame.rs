//! Feature frames: what one message of the service says about the tracked
//! features.
//!
//! Numbers are carried as the bit patterns of IEEE-754 doubles. By
//! convention the first entries of a feature's array are its reference
//! statistic: one for onset and loudness, three for tristimulus, thirteen for
//! the cepstral coefficients.

use crate::json::{
    double_of_int, elements, is_object, json_of, member, number, parse, parsed, Json, JsonNumber,
};
use serde_json::Value;
use vstd::prelude::*;

verus! {

/// Number of tristimulus components.
pub const TRISTIMULUS_LEN: usize = 3;

/// Number of cepstral coefficients.
pub const MFCC_LEN: usize = 13;

/// The reference statistic of each tracked feature that a message carries;
/// `None` for a feature that the message leaves out or gives in another
/// shape.
#[derive(Clone, Copy, Debug, PartialEq, Eq)]
pub struct FeatureFrame {
    pub onset: Option<u64>,
    pub loudness: Option<u64>,
    pub tristimulus: Option<[u64; 3]>,
    pub mfcc: Option<[u64; 13]>,
}

/// A frame as mathematical values.
pub struct FrameView {
    pub onset: Option<u64>,
    pub loudness: Option<u64>,
    pub tristimulus: Option<Seq<u64>>,
    pub mfcc: Option<Seq<u64>>,
}

impl View for FeatureFrame {
    type V = FrameView;

    open spec fn view(&self) -> FrameView {
        FrameView {
            onset: self.onset,
            loudness: self.loudness,
            tristimulus: match self.tristimulus {
                Some(a) => Some(a@),
                None => None,
            },
            mfcc: match self.mfcc {
                Some(a) => Some(a@),
                None => None,
            },
        }
    }
}

/// Why a received message gave no frame.
#[derive(Clone, Copy, PartialEq, Eq, Structural, Debug)]
pub enum DecodeError {
    /// The message was not sent as text.
    NotText,
    /// The text is not JSON.
    Syntax,
    /// The document has no object under `payload.features`.
    Shape,
}

/// The double that a document stands for, if it is a number.
pub open spec fn number_of(j: Json) -> Option<u64> {
    match j {
        Json::Number(JsonNumber::Int(i)) => Some(double_of_int(i)),
        Json::Number(JsonNumber::Float(b)) => Some(b),
        _ => None,
    }
}

/// The member of an object under `key`.
pub open spec fn member_of(j: Json, key: Seq<char>) -> Option<Json> {
    match j {
        Json::Object(m) if m.contains_key(key) => Some(m[key]),
        _ => None,
    }
}

/// Whether `j` is an array whose first `n` entries are all numbers.
pub open spec fn has_leading_numbers(j: Json, n: nat) -> bool {
    match j {
        Json::Array(s) => s.len() >= n && forall|i: int|
            0 <= i < n ==> (#[trigger] number_of(s[i])) is Some,
        _ => false,
    }
}

/// The first `n` entries of an array, where they are all numbers.
pub open spec fn leading_numbers(j: Json, n: nat) -> Option<Seq<u64>> {
    if has_leading_numbers(j, n) {
        Some(Seq::new(n, |i: int| number_of(j->Array_0[i]).unwrap()))
    } else {
        None
    }
}

/// The first `n` numbers of the feature stored under `key`.
pub open spec fn statistic(features: Json, key: Seq<char>, n: nat) -> Option<Seq<u64>> {
    match member_of(features, key) {
        Some(entry) => leading_numbers(entry, n),
        None => None,
    }
}

/// The single number of the feature stored under `key`.
pub open spec fn scalar_statistic(features: Json, key: Seq<char>) -> Option<u64> {
    match statistic(features, key, 1) {
        Some(s) => Some(s[0]),
        None => None,
    }
}

/// The frame that a `features` object gives.
pub open spec fn frame_of(features: Json) -> FrameView {
    FrameView {
        onset: scalar_statistic(features, "onset"@),
        loudness: scalar_statistic(features, "loudness.mean"@),
        tristimulus: statistic(features, "tristimulus.mean"@, 3),
        mfcc: statistic(features, "mfcc.mean"@, 13),
    }
}

/// The frame that a payload gives, if it has a `features` member that is an
/// object.
pub open spec fn payload_frame(payload: Json) -> Option<FrameView> {
    match member_of(payload, "features"@) {
        Some(features) if features is Object => Some(frame_of(features)),
        _ => None,
    }
}

/// The frame that a whole message gives, if it has a `payload` member that
/// gives one.
pub open spec fn message_frame(message: Json) -> Option<FrameView> {
    match member_of(message, "payload"@) {
        Some(payload) => payload_frame(payload),
        None => None,
    }
}

/// What decoding a message text gives.
pub open spec fn decoded(text: Seq<char>) -> Result<FrameView, DecodeError> {
    match parsed(text) {
        None => Err(DecodeError::Syntax),
        Some(message) => match message_frame(message) {
            Some(frame) => Ok(frame),
            None => Err(DecodeError::Shape),
        },
    }
}

/// The views of an optional frame.
pub open spec fn view_of(frame: Option<FeatureFrame>) -> Option<FrameView> {
    match frame {
        Some(f) => Some(f@),
        None => None,
    }
}

/// The view of what decoding gave.
pub open spec fn outcome_view(r: Result<FeatureFrame, DecodeError>) -> Result<
    FrameView,
    DecodeError,
> {
    match r {
        Ok(frame) => Ok(frame@),
        Err(e) => Err(e),
    }
}

/// The first `n` entries of `entry`, where it is an array that has them and
/// they are numbers.
fn read_numbers(entry: &Value, n: usize) -> (r: Option<Vec<u64>>)
    ensures
        match r {
            Some(v) => leading_numbers(json_of(*entry), n as nat) == Some(v@),
            None => leading_numbers(json_of(*entry), n as nat) is None,
        },
{
    let items = match elements(entry) {
        Some(items) => items,
        None => {
            return None;
        },
    };
    if items.len() < n {
        return None;
    }
    let ghost s = json_of(*entry)->Array_0;
    let mut out: Vec<u64> = Vec::new();
    let mut i: usize = 0;
    while i < n
        invariant
            i <= n <= items@.len(),
            json_of(*entry) == Json::Array(s),
            items@.len() == s.len(),
            forall|k: int| 0 <= k < s.len() ==> json_of(#[trigger] items@[k]) == s[k],
            out@.len() == i,
            forall|k: int| 0 <= k < i ==> number_of(s[k]) == Some(#[trigger] out@[k]),
        decreases n - i,
    {
        match number(&items[i]) {
            Some(bits) => {
                out.push(bits);
            },
            None => {
                assert(number_of(s[i as int]) is None);
                return None;
            },
        }
        i += 1;
    }
    assert forall|k: int| 0 <= k < n implies (#[trigger] number_of(s[k])) is Some by {
        assert(number_of(s[k]) == Some(out@[k]));
    }
    assert(out@ =~= leading_numbers(json_of(*entry), n as nat).unwrap());
    Some(out)
}

/// The first `n` numbers of the feature stored under `key`.
fn read_statistic(features: &Value, key: &str, n: usize) -> (r: Option<Vec<u64>>)
    ensures
        match r {
            Some(v) => statistic(json_of(*features), key@, n as nat) == Some(v@),
            None => statistic(json_of(*features), key@, n as nat) is None,
        },
{
    match member(features, key) {
        Some(entry) => read_numbers(entry, n),
        None => None,
    }
}

/// The single number of the feature stored under `key`.
fn read_scalar(features: &Value, key: &str) -> (r: Option<u64>)
    ensures
        r == scalar_statistic(json_of(*features), key@),
{
    match read_statistic(features, key, 1) {
        Some(v) => Some(v[0]),
        None => None,
    }
}

impl FeatureFrame {
    /// The frame that carries nothing.
    pub fn empty() -> (r: Self)
        ensures
            r == (FeatureFrame { onset: None, loudness: None, tristimulus: None, mfcc: None }),
    {
        FeatureFrame { onset: None, loudness: None, tristimulus: None, mfcc: None }
    }

    /// Reads the tracked features out of a `features` object. A feature
    /// whose key is missing, or whose entry is not an array that starts with
    /// as many numbers as the feature has components, is left out; the others
    /// are read all the same.
    pub fn from_features(features: &Value) -> (r: Self)
        ensures
            r@ == frame_of(json_of(*features)),
    {
        let onset = read_scalar(features, "onset");
        let loudness = read_scalar(features, "loudness.mean");
        let tristimulus = match read_statistic(features, "tristimulus.mean", TRISTIMULUS_LEN) {
            Some(v) => {
                let a: [u64; 3] = [v[0], v[1], v[2]];
                assert(a@ =~= v@);
                Some(a)
            },
            None => None,
        };
        let mfcc = match read_statistic(features, "mfcc.mean", MFCC_LEN) {
            Some(v) => {
                let a: [u64; 13] = [
                    v[0],
                    v[1],
                    v[2],
                    v[3],
                    v[4],
                    v[5],
                    v[6],
                    v[7],
                    v[8],
                    v[9],
                    v[10],
                    v[11],
                    v[12],
                ];
                assert(a@ =~= v@);
                Some(a)
            },
            None => None,
        };
        FeatureFrame { onset, loudness, tristimulus, mfcc }
    }

    /// Reads a frame out of a message's payload: `None` unless the payload is
    /// an object with a `features` member that is an object.
    pub fn from_payload(payload: &Value) -> (r: Option<Self>)
        ensures
            view_of(r) == payload_frame(json_of(*payload)),
    {
        match member(payload, "features") {
            Some(features) => if is_object(features) {
                Some(Self::from_features(features))
            } else {
                None
            },
            None => None,
        }
    }

    /// Reads a frame out of a whole message: `None` unless the message is an
    /// object with a `payload` member that gives a frame.
    pub fn from_message(message: &Value) -> (r: Option<Self>)
        ensures
            view_of(r) == message_frame(json_of(*message)),
    {
        match member(message, "payload") {
            Some(payload) => Self::from_payload(payload),
            None => None,
        }
    }
}

/// Decodes the text of a received message into a frame.
pub fn decode(text: &str) -> (r: Result<FeatureFrame, DecodeError>)
    ensures
        outcome_view(r) == decoded(text@),
{
    match parse(text) {
        Ok(message) => match FeatureFrame::from_message(&message) {
            Some(frame) => Ok(frame),
            None => Err(DecodeError::Shape),
        },
        Err(_) => Err(DecodeError::Syntax),
    }
}

} // verus!
