//! The bounded queue that hands frames from the receiving side to the
//! consuming side.
//!
//! The queue never blocks and never grows: a frame pushed onto a full queue
//! takes the place of the oldest one still waiting. Storage is a `ringbuf`
//! ring buffer; what `ringbuf` does is trusted, the replacement policy on
//! top of it is proved.

use crate::frame::{view_of, FeatureFrame, FrameView};
use ringbuf::{Consumer, Producer, RingBuffer};
use vstd::prelude::*;

verus! {

#[verifier::external_type_specification]
#[verifier::external_body]
#[verifier::reject_recursive_types(T)]
pub struct ExProducer<T>(Producer<T>);

#[verifier::external_type_specification]
#[verifier::external_body]
#[verifier::reject_recursive_types(T)]
pub struct ExConsumer<T>(Consumer<T>);

/// Number of frames that the queue holds at most.
pub const RING_DEPTH: usize = 2;

/// The frames waiting in the ring buffer that `c` reads from, oldest first.
pub uninterp spec fn queued(c: Consumer<FeatureFrame>) -> Seq<FeatureFrame>;

/// The capacity that the ring buffer behind `c` was made with.
pub uninterp spec fn depth_of(c: Consumer<FeatureFrame>) -> nat;

/// A queue of at most `RING_DEPTH` frames, oldest first.
///
/// It holds the two halves of one ring buffer: what goes in through the
/// producer half is what comes out through the consumer half.
pub struct FeatureRing {
    producer: Producer<FeatureFrame>,
    consumer: Consumer<FeatureFrame>,
}

/// What pushing `frame` makes of the waiting frames `q`.
pub open spec fn pushed(q: Seq<FrameView>, frame: FrameView) -> Seq<FrameView> {
    if q.len() < RING_DEPTH {
        q.push(frame)
    } else {
        q.skip(1).push(frame)
    }
}

/// What popping makes of the waiting frames `q`.
pub open spec fn popped(q: Seq<FrameView>) -> Seq<FrameView> {
    if q.len() == 0 {
        q
    } else {
        q.skip(1)
    }
}

/// The oldest of the waiting frames `q`.
pub open spec fn oldest(q: Seq<FrameView>) -> Option<FrameView> {
    if q.len() == 0 {
        None
    } else {
        Some(q[0])
    }
}

/// Calls `ringbuf::RingBuffer::new` and `split`, and keeps both halves
/// together: an empty ring buffer of the given capacity. No other function
/// makes a `FeatureRing`, so the halves of one always belong together.
#[verifier::external_body]
fn ring_open(depth: usize) -> (r: FeatureRing)
    requires
        depth < usize::MAX,
    ensures
        queued(r.consumer) == Seq::<FeatureFrame>::empty(),
        depth_of(r.consumer) == depth,
{
    let (producer, consumer) = RingBuffer::new(depth).split();
    FeatureRing { producer, consumer }
}

/// Calls `ringbuf::Producer::push` on the producer half: the frame is
/// appended behind those that wait, unless as many wait as the ring buffer
/// can hold; then nothing changes and the frame comes back.
#[verifier::external_body]
fn ring_push(ring: &mut FeatureRing, frame: FeatureFrame) -> (r: Result<(), FeatureFrame>)
    ensures
        depth_of(final(ring).consumer) == depth_of(old(ring).consumer),
        queued(old(ring).consumer).len() < depth_of(old(ring).consumer) ==> r is Ok && queued(
            final(ring).consumer,
        ) == queued(old(ring).consumer).push(frame),
        queued(old(ring).consumer).len() >= depth_of(old(ring).consumer) ==> r is Err
            && r->Err_0 == frame && queued(final(ring).consumer) == queued(old(ring).consumer),
{
    ring.producer.push(frame)
}

/// Calls `ringbuf::Consumer::pop` on the consumer half: the oldest waiting
/// frame leaves and is returned; `None`, and no change, where none waits.
#[verifier::external_body]
fn ring_pop(ring: &mut FeatureRing) -> (r: Option<FeatureFrame>)
    ensures
        depth_of(final(ring).consumer) == depth_of(old(ring).consumer),
        queued(old(ring).consumer).len() == 0 ==> r is None && queued(final(ring).consumer)
            == queued(old(ring).consumer),
        queued(old(ring).consumer).len() > 0 ==> r == Some(queued(old(ring).consumer)[0])
            && queued(final(ring).consumer) == queued(old(ring).consumer).skip(1),
{
    ring.consumer.pop()
}

/// Calls `ringbuf::Consumer::len` on the consumer half: the number of
/// waiting frames.
#[verifier::external_body]
fn ring_len(ring: &FeatureRing) -> (r: usize)
    ensures
        r == queued(ring.consumer).len(),
{
    ring.consumer.len()
}

impl View for FeatureRing {
    type V = Seq<FrameView>;

    /// The waiting frames, oldest first.
    closed spec fn view(&self) -> Seq<FrameView> {
        queued(self.consumer).map_values(|f: FeatureFrame| f@)
    }
}

impl FeatureRing {
    #[verifier::type_invariant]
    spec fn bounded(self) -> bool {
        &&& depth_of(self.consumer) == RING_DEPTH
        &&& queued(self.consumer).len() <= RING_DEPTH
    }

    /// An empty queue.
    pub fn new() -> (r: Self)
        ensures
            r@ == Seq::<FrameView>::empty(),
    {
        let ring = ring_open(RING_DEPTH);
        assert(ring@ =~= Seq::<FrameView>::empty());
        ring
    }

    /// The number of waiting frames.
    pub fn len(&self) -> (r: usize)
        ensures
            r == self@.len(),
            r <= RING_DEPTH,
    {
        proof {
            use_type_invariant(self);
        }
        ring_len(self)
    }

    /// Whether no frame waits.
    pub fn is_empty(&self) -> (r: bool)
        ensures
            r == (self@.len() == 0),
    {
        ring_len(self) == 0
    }

    /// Appends `frame`. Where the queue is full the oldest waiting frame is
    /// dropped to make room, and returned.
    pub fn push(&mut self, frame: FeatureFrame) -> (dropped: Option<FeatureFrame>)
        ensures
            final(self)@ == pushed(old(self)@, frame@),
            view_of(dropped) == (if old(self)@.len() < RING_DEPTH {
                None
            } else {
                Some(old(self)@[0])
            }),
    {
        proof {
            use_type_invariant(&*self);
        }
        let dropped = if ring_len(self) >= RING_DEPTH {
            ring_pop(self)
        } else {
            None
        };
        let rejected = ring_push(self, frame);
        assert(rejected is Ok);
        assert(self@ =~= pushed(old(self)@, frame@));
        dropped
    }

    /// Takes the oldest waiting frame out; `None` where the queue is empty.
    pub fn pop(&mut self) -> (r: Option<FeatureFrame>)
        ensures
            view_of(r) == oldest(old(self)@),
            final(self)@ == popped(old(self)@),
    {
        proof {
            use_type_invariant(&*self);
        }
        let r = ring_pop(self);
        assert(self@ =~= popped(old(self)@));
        r
    }
}

/// A push never leaves more than `RING_DEPTH` frames waiting, and the frame
/// pushed is the newest of them.
pub proof fn lemma_push_is_bounded(q: Seq<FrameView>, frame: FrameView)
    requires
        q.len() <= RING_DEPTH,
    ensures
        pushed(q, frame).len() <= RING_DEPTH,
        pushed(q, frame).last() == frame,
        q.len() < RING_DEPTH ==> pushed(q, frame) == q.push(frame),
        q.len() == RING_DEPTH ==> pushed(q, frame) == seq![q[1], frame],
{
    if q.len() == RING_DEPTH {
        assert(pushed(q, frame) =~= seq![q[1], frame]);
    }
}

/// Three pushes onto an empty queue, with no pop between them, leave the
/// second and the third frame waiting, in that order: the first is gone.
pub proof fn lemma_third_push_drops_oldest(a: FrameView, b: FrameView, c: FrameView)
    ensures
        pushed(pushed(pushed(Seq::empty(), a), b), c) == seq![b, c],
{
    let one = pushed(Seq::empty(), a);
    assert(one =~= seq![a]);
    let two = pushed(one, b);
    assert(two =~= seq![a, b]);
    assert(pushed(two, c) =~= seq![b, c]);
}

/// Frames leave in the order in which they came: popping after a push onto
/// an empty queue gives back that frame and leaves the queue empty.
pub proof fn lemma_pop_gives_oldest(q: Seq<FrameView>, frame: FrameView)
    requires
        q.len() < RING_DEPTH,
    ensures
        oldest(pushed(q, frame)) == (if q.len() == 0 {
            Some(frame)
        } else {
            Some(q[0])
        }),
        q.len() == 0 ==> popped(pushed(q, frame)) == q,
{
    if q.len() == 0 {
        assert(popped(pushed(q, frame)) =~= q);
    }
}

} // verus!
