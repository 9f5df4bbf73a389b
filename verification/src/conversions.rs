//! Building ranges and properties from plain values, intervals and lists.
//!
//! None of these looks at what it is given: an interval whose bounds are out
//! of order, or a list with nothing in it, converts like any other, and is
//! found out only when the property is read.

use crate::prop_range::PropRange;
use crate::property::Property;
use core::ops::{Range, RangeInclusive};
use vstd::prelude::*;
use vstd::slice::slice_to_vec;
use vstd::std_specs::convert::FromSpecImpl;

verus! {

/// `RangeInclusive::into_inner`: the lower and the upper bound that the
/// interval was made of.
pub assume_specification<Idx>[ RangeInclusive::<Idx>::into_inner ](
    interval: RangeInclusive<Idx>,
) -> (bounds: (Idx, Idx))
    ensures
        bounds.0 == interval@.start,
        bounds.1 == interval@.end,
;

impl<T> From<Range<T>> for PropRange<T> {
    /// A half-open interval becomes a range that leaves `end` out.
    fn from(v: Range<T>) -> (range: Self) {
        PropRange { start: v.start, end: v.end, inclusive: false }
    }
}

impl<T> FromSpecImpl<Range<T>> for PropRange<T> {
    open spec fn obeys_from_spec() -> bool {
        true
    }

    open spec fn from_spec(v: Range<T>) -> Self {
        PropRange { start: v.start, end: v.end, inclusive: false }
    }
}

impl<T> From<RangeInclusive<T>> for PropRange<T> {
    /// A closed interval becomes a range that counts `end` in.
    fn from(v: RangeInclusive<T>) -> (range: Self) {
        let (start, end) = v.into_inner();
        PropRange { start, end, inclusive: true }
    }
}

impl<T> FromSpecImpl<RangeInclusive<T>> for PropRange<T> {
    open spec fn obeys_from_spec() -> bool {
        true
    }

    open spec fn from_spec(v: RangeInclusive<T>) -> Self {
        PropRange { start: v@.start, end: v@.end, inclusive: true }
    }
}

impl<T> From<T> for Property<T> {
    /// A bare value becomes a fixed slot.
    fn from(v: T) -> (property: Self) {
        Property::Static(v)
    }
}

impl<T> FromSpecImpl<T> for Property<T> {
    open spec fn obeys_from_spec() -> bool {
        true
    }

    open spec fn from_spec(v: T) -> Self {
        Property::Static(v)
    }
}

impl<T> From<Range<T>> for Property<T> {
    /// A half-open interval becomes a slot drawn from it, `end` left out.
    fn from(v: Range<T>) -> (property: Self) {
        Property::RandomRange(PropRange { start: v.start, end: v.end, inclusive: false })
    }
}

impl<T> FromSpecImpl<Range<T>> for Property<T> {
    open spec fn obeys_from_spec() -> bool {
        true
    }

    open spec fn from_spec(v: Range<T>) -> Self {
        Property::RandomRange(PropRange { start: v.start, end: v.end, inclusive: false })
    }
}

impl<T> From<RangeInclusive<T>> for Property<T> {
    /// A closed interval becomes a slot drawn from it, `end` counted in.
    fn from(v: RangeInclusive<T>) -> (property: Self) {
        let (start, end) = v.into_inner();
        Property::RandomRange(PropRange { start, end, inclusive: true })
    }
}

impl<T> FromSpecImpl<RangeInclusive<T>> for Property<T> {
    open spec fn obeys_from_spec() -> bool {
        true
    }

    open spec fn from_spec(v: RangeInclusive<T>) -> Self {
        Property::RandomRange(PropRange { start: v@.start, end: v@.end, inclusive: true })
    }
}

impl<T> From<Vec<T>> for Property<T> {
    /// A list becomes a slot picked from it.
    fn from(v: Vec<T>) -> (property: Self) {
        Property::RandomChoice(v)
    }
}

impl<T> FromSpecImpl<Vec<T>> for Property<T> {
    open spec fn obeys_from_spec() -> bool {
        true
    }

    open spec fn from_spec(v: Vec<T>) -> Self {
        Property::RandomChoice(v)
    }
}

impl<'a, T: Copy> From<&'a [T]> for Property<T> {
    /// A borrowed list becomes a slot picked from a copy of it.
    fn from(v: &'a [T]) -> (property: Self)
        ensures
            property matches Property::RandomChoice(choices) && choices@ == v@,
    {
        Property::RandomChoice(slice_to_vec(v))
    }
}

/// A copied list is told apart only by what it holds, so this conversion is
/// described by the contract of `from` alone.
impl<'a, T: Copy> FromSpecImpl<&'a [T]> for Property<T> {
    open spec fn obeys_from_spec() -> bool {
        false
    }

    open spec fn from_spec(v: &'a [T]) -> Self {
        arbitrary()
    }
}

impl<T: Copy, const N: usize> From<[T; N]> for Property<T> {
    /// A fixed-size list becomes a slot picked from its items.
    fn from(v: [T; N]) -> (property: Self)
        ensures
            property matches Property::RandomChoice(choices) && choices@ == v@,
    {
        Property::RandomChoice(slice_to_vec(v.as_slice()))
    }
}

/// A copied list is told apart only by what it holds, so this conversion is
/// described by the contract of `from` alone.
impl<T: Copy, const N: usize> FromSpecImpl<[T; N]> for Property<T> {
    open spec fn obeys_from_spec() -> bool {
        false
    }

    open spec fn from_spec(v: [T; N]) -> Self {
        arbitrary()
    }
}

} // verus!
