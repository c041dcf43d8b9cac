//! The smoothed feature state that a consumer reads once per tick.
//!
//! Smoothed values are single-precision numbers, and raw values are doubles,
//! both carried as IEEE-754 bit patterns. This module decides which value
//! changes on a tick and from what; the arithmetic that blends a previous
//! value with a raw one is the caller's, handed in as `lerp`.

use crate::frame::{frame_of, member_of, statistic, FeatureFrame, FrameView};
use crate::json::Json;
use crate::ring::{oldest, popped, FeatureRing};
use vstd::prelude::*;

verus! {

/// Bit pattern of the single-precision smoothing coefficient 0.6.
pub const DEFAULT_SMOOTHING: u32 = 0x3f19_999a;

/// The latest raw frame and the smoothed values derived from all frames so
/// far.
#[derive(Clone, Copy, Debug, PartialEq, Eq)]
pub struct AudioFeatures {
    /// The frame consumed last.
    pub current: FeatureFrame,
    /// Whether the last frame that carried an onset reported one.
    pub onset: bool,
    /// Smoothed loudness.
    pub loudness: u32,
    /// Smoothed tristimulus.
    pub tristimulus: [u32; 3],
    /// The smoothing coefficient, strictly between zero and one.
    pub smoothing: u32,
    /// Smoothed cepstral coefficients.
    pub mfcc: [u32; 13],
}

/// The state as mathematical values.
pub struct FeaturesView {
    pub current: FrameView,
    pub onset: bool,
    pub loudness: u32,
    pub tristimulus: Seq<u32>,
    pub smoothing: u32,
    pub mfcc: Seq<u32>,
}

impl View for AudioFeatures {
    type V = FeaturesView;

    open spec fn view(&self) -> FeaturesView {
        FeaturesView {
            current: self.current@,
            onset: self.onset,
            loudness: self.loudness,
            tristimulus: self.tristimulus@,
            smoothing: self.smoothing,
            mfcc: self.mfcc@,
        }
    }
}

/// Whether `bits` is the pattern of a single-precision number strictly
/// between zero and one. Positive numbers are ordered as their patterns
/// are; zero has the pattern 0 and one the pattern `0x3f80_0000`.
pub open spec fn is_coefficient(bits: u32) -> bool {
    0 < bits < 0x3f80_0000
}

/// Whether the double with the given bit pattern differs from zero: every
/// pattern but those of the two signed zeros.
pub open spec fn nonzero(bits: u64) -> bool {
    bits & 0x7fff_ffff_ffff_ffff != 0
}

/// The state before any frame: no current frame, no onset, every smoothed
/// value the pattern of zero.
pub open spec fn initial(smoothing: u32) -> FeaturesView {
    FeaturesView {
        current: FrameView { onset: None, loudness: None, tristimulus: None, mfcc: None },
        onset: false,
        loudness: 0,
        tristimulus: Seq::new(3, |i: int| 0u32),
        smoothing,
        mfcc: Seq::new(13, |i: int| 0u32),
    }
}

/// The onset after a frame: the frame's own where it carries one, the
/// previous one otherwise.
pub open spec fn onset_after(prev: bool, raw: Option<u64>) -> bool {
    match raw {
        Some(bits) => nonzero(bits),
        None => prev,
    }
}

/// Whether `next` is what a tick makes of the scalar `prev`: what `lerp`
/// gives for the coefficient, `prev` and the raw value, or `prev` itself
/// where the frame has no raw value.
pub open spec fn blended<F: Fn(u32, u32, u64) -> u32>(
    lerp: F,
    smoothing: u32,
    prev: u32,
    raw: Option<u64>,
    next: u32,
) -> bool {
    match raw {
        Some(x) => lerp.ensures((smoothing, prev, x), next),
        None => next == prev,
    }
}

/// Whether `next` is what a tick makes of the vector `prev`: each component
/// blended by itself, or `prev` itself where the frame has no raw values.
pub open spec fn smoothed<F: Fn(u32, u32, u64) -> u32>(
    lerp: F,
    smoothing: u32,
    prev: Seq<u32>,
    raw: Option<Seq<u64>>,
    next: Seq<u32>,
) -> bool {
    match raw {
        Some(r) => next.len() == prev.len() && forall|i: int|
            0 <= i < prev.len() ==> lerp.ensures((smoothing, prev[i], r[i]), #[trigger] next[i]),
        None => next == prev,
    }
}

/// Whether `post` is what consuming `frame` makes of `pre`.
pub open spec fn consumed<F: Fn(u32, u32, u64) -> u32>(
    lerp: F,
    pre: FeaturesView,
    frame: FrameView,
    post: FeaturesView,
) -> bool {
    &&& post.current == frame
    &&& post.smoothing == pre.smoothing
    &&& post.onset == onset_after(pre.onset, frame.onset)
    &&& blended(lerp, pre.smoothing, pre.loudness, frame.loudness, post.loudness)
    &&& smoothed(lerp, pre.smoothing, pre.tristimulus, frame.tristimulus, post.tristimulus)
    &&& smoothed(lerp, pre.smoothing, pre.mfcc, frame.mfcc, post.mfcc)
}

/// Whether `post` is what one tick makes of `pre` when `queue` waits: the
/// oldest waiting frame is consumed, and without one nothing changes.
pub open spec fn ticked<F: Fn(u32, u32, u64) -> u32>(
    lerp: F,
    pre: FeaturesView,
    queue: Seq<FrameView>,
    post: FeaturesView,
) -> bool {
    match oldest(queue) {
        Some(frame) => consumed(lerp, pre, frame, post),
        None => post == pre,
    }
}

/// Blends every component of `values` with the raw value at the same index.
fn smooth_all<F: Fn(u32, u32, u64) -> u32, const N: usize>(
    lerp: &F,
    smoothing: u32,
    values: &mut [u32; N],
    raw: &[u64; N],
)
    requires
        forall|a: u32, p: u32, x: u64| lerp.requires((a, p, x)),
    ensures
        smoothed(*lerp, smoothing, old(values)@, Some(raw@), final(values)@),
{
    let mut i: usize = 0;
    while i < N
        invariant
            i <= N,
            forall|a: u32, p: u32, x: u64| lerp.requires((a, p, x)),
            forall|k: int|
                0 <= k < i ==> lerp.ensures(
                    (smoothing, old(values)@[k], raw@[k]),
                    #[trigger] values@[k],
                ),
            forall|k: int| i <= k < N ==> values@[k] == old(values)@[k],
        decreases N - i,
    {
        let v = lerp(smoothing, values[i], raw[i]);
        values[i] = v;
        i += 1;
    }
}

impl AudioFeatures {
    /// The state before any frame, with the default coefficient.
    pub fn new() -> (r: Self)
        ensures
            r@ == initial(DEFAULT_SMOOTHING),
    {
        let r = AudioFeatures {
            current: FeatureFrame::empty(),
            onset: false,
            loudness: 0,
            tristimulus: [0, 0, 0],
            smoothing: DEFAULT_SMOOTHING,
            mfcc: [0, 0, 0, 0, 0, 0, 0, 0, 0, 0, 0, 0, 0],
        };
        assert(r.tristimulus@ =~= Seq::new(3, |i: int| 0u32));
        assert(r.mfcc@ =~= Seq::new(13, |i: int| 0u32));
        r
    }

    /// The state before any frame, with the given smoothing coefficient.
    /// `None` unless the coefficient lies strictly between zero and one.
    pub fn with_smoothing(smoothing: u32) -> (r: Option<Self>)
        ensures
            r is Some <==> is_coefficient(smoothing),
            r is Some ==> r.unwrap()@ == initial(smoothing),
    {
        if 0 < smoothing && smoothing < 0x3f80_0000 {
            let mut features = Self::new();
            features.smoothing = smoothing;
            Some(features)
        } else {
            None
        }
    }

    /// One tick of the consumer. Takes the oldest waiting frame from `ring`;
    /// where none waits, nothing changes. Otherwise the frame becomes the
    /// current one, and each feature that it carries is updated by itself:
    /// onset is overwritten, true where the raw value is not zero; loudness
    /// and every component of tristimulus and of the cepstral coefficients
    /// become what `lerp` gives for the coefficient, the previous value and
    /// the raw value. A feature that the frame does not carry keeps its
    /// value.
    pub fn update<F: Fn(u32, u32, u64) -> u32>(&mut self, ring: &mut FeatureRing, lerp: F)
        requires
            forall|a: u32, p: u32, x: u64| lerp.requires((a, p, x)),
        ensures
            ticked(lerp, old(self)@, old(ring)@, final(self)@),
            final(ring)@ == popped(old(ring)@),
            old(ring)@.len() == 0 ==> *final(self) == *old(self),
    {
        let frame = match ring.pop() {
            Some(frame) => frame,
            None => {
                return ;
            },
        };
        self.current = frame;
        if let Some(bits) = frame.onset {
            self.onset = bits & 0x7fff_ffff_ffff_ffff != 0;
        }
        if let Some(raw) = frame.loudness {
            self.loudness = lerp(self.smoothing, self.loudness, raw);
        }
        if let Some(raw) = frame.tristimulus {
            smooth_all(&lerp, self.smoothing, &mut self.tristimulus, &raw);
        }
        if let Some(raw) = frame.mfcc {
            smooth_all(&lerp, self.smoothing, &mut self.mfcc, &raw);
        }
    }
}

/// A tick that finds the queue empty leaves the state as it is.
pub proof fn lemma_empty_tick_changes_nothing<F: Fn(u32, u32, u64) -> u32>(
    lerp: F,
    pre: FeaturesView,
    post: FeaturesView,
)
    requires
        ticked(lerp, pre, Seq::<FrameView>::empty(), post),
    ensures
        post == pre,
{
}

/// Two ticks with no push between them: where at most one frame waited
/// before the first tick, the second tick leaves every smoothed value and
/// the onset as the first tick left them.
pub proof fn lemma_idle_tick_changes_nothing<F: Fn(u32, u32, u64) -> u32>(
    lerp: F,
    before: FeaturesView,
    queue: Seq<FrameView>,
    between: FeaturesView,
    after: FeaturesView,
)
    requires
        queue.len() <= 1,
        ticked(lerp, before, queue, between),
        ticked(lerp, between, popped(queue), after),
    ensures
        after == between,
{
}

/// A frame read from a `features` object that has no `loudness.mean` member
/// leaves loudness as it was, and still blends tristimulus and the cepstral
/// coefficients where the object gives them.
pub proof fn lemma_missing_loudness_keeps_loudness<F: Fn(u32, u32, u64) -> u32>(
    lerp: F,
    features: Json,
    pre: FeaturesView,
    post: FeaturesView,
)
    requires
        member_of(features, "loudness.mean"@) is None,
        consumed(lerp, pre, frame_of(features), post),
    ensures
        post.loudness == pre.loudness,
        smoothed(
            lerp,
            pre.smoothing,
            pre.tristimulus,
            statistic(features, "tristimulus.mean"@, 3),
            post.tristimulus,
        ),
        smoothed(lerp, pre.smoothing, pre.mfcc, statistic(features, "mfcc.mean"@, 13), post.mfcc),
{
}

/// A frame that carries no onset leaves the onset as it was; one that
/// carries an onset decides it alone, whatever it was before.
pub proof fn lemma_onset_is_not_smoothed<F: Fn(u32, u32, u64) -> u32>(
    lerp: F,
    pre: FeaturesView,
    frame: FrameView,
    post: FeaturesView,
)
    requires
        consumed(lerp, pre, frame, post),
    ensures
        frame.onset is None ==> post.onset == pre.onset,
        frame.onset is Some ==> post.onset == nonzero(frame.onset.unwrap()),
{
}

} // verus!
