//! The bounds of a sampling interval.

use vstd::prelude::*;

verus! {

/// A sampling interval: `start`, `end`, and whether `end` itself may be drawn.
///
/// Building a range never checks that `start` lies below `end`; whoever
/// samples from it does.
#[derive(Clone, Copy, Debug, Default)]
pub struct PropRange<T> {
    pub start: T,
    pub end: T,
    pub inclusive: bool,
}

impl<T> PropRange<T> {
    /// The range with these three parts.
    pub open spec fn spec_new(start: T, end: T, inclusive: bool) -> Self {
        PropRange { start, end, inclusive }
    }

    /// A range from its three parts, taken as they are.
    #[verifier::when_used_as_spec(spec_new)]
    pub fn new(start: T, end: T, inclusive: bool) -> (range: Self)
        ensures
            range == Self::spec_new(start, end, inclusive),
    {
        Self { start, end, inclusive }
    }
}

} // verus!
