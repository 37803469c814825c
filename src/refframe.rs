//! Frames of reference tagged at compile time.
//!
//! A `Motion<From, To>` carries no numbers: its two type parameters name the
//! frames it relates, so motions can only be chained when their frames line
//! up, and a motion between a frame and itself is recognisable as null.
use vstd::prelude::*;
use core::marker::PhantomData;

verus! {

/// A named frame of reference, implemented by a zero-sized marker type.
pub trait FrameOfReference {
    /// The name of the frame, as characters. An implementation checked by
    /// Verus overrides it with the name that `name` returns; the provided
    /// value is left unspecified, so no name can be proved to match it.
    closed spec fn spec_name() -> Seq<char> {
        arbitrary()
    }

    /// The name of the frame.
    fn name() -> (r: &'static str)
        ensures
            r@ == Self::spec_name(),
    ;
}

/// A motion between these two frames relates a frame to itself.
pub open spec fn same_frame<A: FrameOfReference, B: FrameOfReference>() -> bool {
    A::spec_name() == B::spec_name()
}

/// Whether two frame names are the same.
pub fn names_match(a: &str, b: &str) -> (r: bool)
    ensures
        r == (a@ == b@),
{
    let a = a.to_owned();
    let b = b.to_owned();
    a == b
}

/// A motion from frame `TFromPose` to frame `TToPose`.
pub struct Motion<TFromPose, TToPose> where
    TFromPose: FrameOfReference,
    TToPose: FrameOfReference,
 {
    _marker: PhantomData<(TFromPose, TToPose)>,
}

impl<TFromPose, TToPose> Motion<TFromPose, TToPose> where
    TFromPose: FrameOfReference,
    TToPose: FrameOfReference,
 {
    /// The one value of the type: a motion holds nothing but its frames.
    pub closed spec fn the_motion() -> Self {
        Self { _marker: PhantomData }
    }

    /// The motion between the two frames.
    pub fn new() -> (r: Self)
        ensures
            r == Self::the_motion(),
    {
        Self { _marker: PhantomData }
    }

    /// True exactly when both frames carry the same name.
    pub fn is_null(&self) -> (r: bool)
        ensures
            r == same_frame::<TFromPose, TToPose>(),
    {
        names_match(TFromPose::name(), TToPose::name())
    }

    /// The motion in the opposite direction.
    pub fn inverse(&self) -> (r: Motion<TToPose, TFromPose>)
        ensures
            r == Motion::<TToPose, TFromPose>::the_motion(),
    {
        Motion::new()
    }

    /// This motion followed by `next`, which starts where this one ends.
    pub fn followed_by<TNext: FrameOfReference>(&self, next: &Motion<TToPose, TNext>) -> (r: Motion<
        TFromPose,
        TNext,
    >)
        ensures
            r == Motion::<TFromPose, TNext>::the_motion(),
    {
        Motion::new()
    }
}

/// A motion from a frame to itself is null.
pub proof fn lemma_self_motion_is_null<A: FrameOfReference>()
    ensures
        same_frame::<A, A>(),
{
}

/// A motion and its inverse are null together.
pub proof fn lemma_inverse_keeps_null<A: FrameOfReference, B: FrameOfReference>()
    ensures
        same_frame::<A, B>() == same_frame::<B, A>(),
{
}

/// A motion followed by one that leads back to its start frame is null;
/// in particular a motion followed by its inverse.
pub proof fn lemma_round_trip_is_null<A: FrameOfReference, B: FrameOfReference>()
    ensures
        same_frame::<A, A>(),
{
}

/// Chaining two null motions gives a null motion.
pub proof fn lemma_chain_of_null_is_null<
    A: FrameOfReference,
    B: FrameOfReference,
    C: FrameOfReference,
>()
    requires
        same_frame::<A, B>(),
        same_frame::<B, C>(),
    ensures
        same_frame::<A, C>(),
{
}

} // verus!
