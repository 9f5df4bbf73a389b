//! Types that can be drawn at random, freely or from a range.

use crate::prop_range::PropRange;
use crate::random_source::{
    gen_i128, gen_i16, gen_i32, gen_i64, gen_i8, gen_isize, gen_range_i128, gen_range_i16,
    gen_range_i32, gen_range_i64, gen_range_i8, gen_range_inclusive_i128, gen_range_inclusive_i16,
    gen_range_inclusive_i32, gen_range_inclusive_i64, gen_range_inclusive_i8,
    gen_range_inclusive_isize, gen_range_inclusive_u128, gen_range_inclusive_u16,
    gen_range_inclusive_u32, gen_range_inclusive_u64, gen_range_inclusive_u8,
    gen_range_inclusive_usize, gen_range_isize, gen_range_u128, gen_range_u16, gen_range_u32,
    gen_range_u64, gen_range_u8, gen_range_usize, gen_u128, gen_u16, gen_u32, gen_u64, gen_u8,
    gen_usize,
};
use rand::rngs::ThreadRng;
use vstd::prelude::*;

verus! {

/// Whether integer bounds leave anything to draw: `start` below `end`, or
/// equal to it when `end` itself may be drawn.
pub open spec fn bounds_can_sample(start: int, end: int, inclusive: bool) -> bool {
    if inclusive {
        start <= end
    } else {
        start < end
    }
}

/// Whether `value` lies between integer bounds, `end` counted only when
/// `inclusive`.
pub open spec fn bounds_hold(value: int, start: int, end: int, inclusive: bool) -> bool {
    start <= value && if inclusive {
        value <= end
    } else {
        value < end
    }
}

/// A value drawn between bounds that leave `end` out is at least `start` and
/// below `end`, and such bounds can only be drawn from when `start` is below
/// `end`.
pub proof fn lemma_drawn_below_end(value: int, start: int, end: int)
    requires
        bounds_hold(value, start, end, false),
    ensures
        start <= value < end,
        bounds_can_sample(start, end, false),
{
}

/// A value drawn between bounds that count `end` in is at least `start` and
/// at most `end`; where the two bounds meet, it is that one value.
pub proof fn lemma_drawn_up_to_end(value: int, start: int, end: int)
    requires
        bounds_hold(value, start, end, true),
    ensures
        start <= value <= end,
        bounds_can_sample(start, end, true),
        start == end ==> value == start,
{
}

/// Bounds can be drawn from exactly when some value lies between them.
pub proof fn lemma_can_sample_iff_inhabited(start: int, end: int, inclusive: bool)
    ensures
        bounds_can_sample(start, end, inclusive) <==> exists|value: int|
            bounds_hold(value, start, end, inclusive),
{
    if bounds_can_sample(start, end, inclusive) {
        assert(bounds_hold(start, start, end, inclusive));
    }
}

/// A type of which a random value can be drawn, with or without bounds.
pub trait PropRand: Sized {
    /// Whether `range` can be sampled at all.
    spec fn can_sample(range: PropRange<Self>) -> bool;

    /// Whether `self` is a value that sampling `range` may give.
    spec fn lies_in(self, range: PropRange<Self>) -> bool;

    /// Tests whether `range` can be sampled, without drawing anything.
    fn check_range(range: &PropRange<Self>) -> (ok: bool)
        ensures
            ok == Self::can_sample(*range),
    ;

    /// Draws any value of the type.
    fn gen(rng: &mut ThreadRng) -> Self;

    /// Draws a value from `range`, which must be one that can be sampled.
    fn gen_range(rng: &mut ThreadRng, range: PropRange<Self>) -> (value: Self)
        requires
            Self::can_sample(range),
        ensures
            value.lies_in(range),
    ;
}

impl PropRand for usize {
    open spec fn can_sample(range: PropRange<usize>) -> bool {
        bounds_can_sample(range.start as int, range.end as int, range.inclusive)
    }

    open spec fn lies_in(self, range: PropRange<usize>) -> bool {
        bounds_hold(self as int, range.start as int, range.end as int, range.inclusive)
    }

    fn check_range(range: &PropRange<usize>) -> (ok: bool) {
        if range.inclusive {
            range.start <= range.end
        } else {
            range.start < range.end
        }
    }

    fn gen(rng: &mut ThreadRng) -> usize {
        gen_usize(rng)
    }

    fn gen_range(rng: &mut ThreadRng, range: PropRange<usize>) -> (value: usize)
        ensures
            range.start <= value,
            range.inclusive ==> value <= range.end,
            !range.inclusive ==> value < range.end,
    {
        if range.inclusive {
            gen_range_inclusive_usize(rng, range.start, range.end)
        } else {
            gen_range_usize(rng, range.start, range.end)
        }
    }
}

impl PropRand for isize {
    open spec fn can_sample(range: PropRange<isize>) -> bool {
        bounds_can_sample(range.start as int, range.end as int, range.inclusive)
    }

    open spec fn lies_in(self, range: PropRange<isize>) -> bool {
        bounds_hold(self as int, range.start as int, range.end as int, range.inclusive)
    }

    fn check_range(range: &PropRange<isize>) -> (ok: bool) {
        if range.inclusive {
            range.start <= range.end
        } else {
            range.start < range.end
        }
    }

    fn gen(rng: &mut ThreadRng) -> isize {
        gen_isize(rng)
    }

    fn gen_range(rng: &mut ThreadRng, range: PropRange<isize>) -> (value: isize)
        ensures
            range.start <= value,
            range.inclusive ==> value <= range.end,
            !range.inclusive ==> value < range.end,
    {
        if range.inclusive {
            gen_range_inclusive_isize(rng, range.start, range.end)
        } else {
            gen_range_isize(rng, range.start, range.end)
        }
    }
}

impl PropRand for u8 {
    open spec fn can_sample(range: PropRange<u8>) -> bool {
        bounds_can_sample(range.start as int, range.end as int, range.inclusive)
    }

    open spec fn lies_in(self, range: PropRange<u8>) -> bool {
        bounds_hold(self as int, range.start as int, range.end as int, range.inclusive)
    }

    fn check_range(range: &PropRange<u8>) -> (ok: bool) {
        if range.inclusive {
            range.start <= range.end
        } else {
            range.start < range.end
        }
    }

    fn gen(rng: &mut ThreadRng) -> u8 {
        gen_u8(rng)
    }

    fn gen_range(rng: &mut ThreadRng, range: PropRange<u8>) -> (value: u8)
        ensures
            range.start <= value,
            range.inclusive ==> value <= range.end,
            !range.inclusive ==> value < range.end,
    {
        if range.inclusive {
            gen_range_inclusive_u8(rng, range.start, range.end)
        } else {
            gen_range_u8(rng, range.start, range.end)
        }
    }
}

impl PropRand for u16 {
    open spec fn can_sample(range: PropRange<u16>) -> bool {
        bounds_can_sample(range.start as int, range.end as int, range.inclusive)
    }

    open spec fn lies_in(self, range: PropRange<u16>) -> bool {
        bounds_hold(self as int, range.start as int, range.end as int, range.inclusive)
    }

    fn check_range(range: &PropRange<u16>) -> (ok: bool) {
        if range.inclusive {
            range.start <= range.end
        } else {
            range.start < range.end
        }
    }

    fn gen(rng: &mut ThreadRng) -> u16 {
        gen_u16(rng)
    }

    fn gen_range(rng: &mut ThreadRng, range: PropRange<u16>) -> (value: u16)
        ensures
            range.start <= value,
            range.inclusive ==> value <= range.end,
            !range.inclusive ==> value < range.end,
    {
        if range.inclusive {
            gen_range_inclusive_u16(rng, range.start, range.end)
        } else {
            gen_range_u16(rng, range.start, range.end)
        }
    }
}

impl PropRand for u32 {
    open spec fn can_sample(range: PropRange<u32>) -> bool {
        bounds_can_sample(range.start as int, range.end as int, range.inclusive)
    }

    open spec fn lies_in(self, range: PropRange<u32>) -> bool {
        bounds_hold(self as int, range.start as int, range.end as int, range.inclusive)
    }

    fn check_range(range: &PropRange<u32>) -> (ok: bool) {
        if range.inclusive {
            range.start <= range.end
        } else {
            range.start < range.end
        }
    }

    fn gen(rng: &mut ThreadRng) -> u32 {
        gen_u32(rng)
    }

    fn gen_range(rng: &mut ThreadRng, range: PropRange<u32>) -> (value: u32)
        ensures
            range.start <= value,
            range.inclusive ==> value <= range.end,
            !range.inclusive ==> value < range.end,
    {
        if range.inclusive {
            gen_range_inclusive_u32(rng, range.start, range.end)
        } else {
            gen_range_u32(rng, range.start, range.end)
        }
    }
}

impl PropRand for u64 {
    open spec fn can_sample(range: PropRange<u64>) -> bool {
        bounds_can_sample(range.start as int, range.end as int, range.inclusive)
    }

    open spec fn lies_in(self, range: PropRange<u64>) -> bool {
        bounds_hold(self as int, range.start as int, range.end as int, range.inclusive)
    }

    fn check_range(range: &PropRange<u64>) -> (ok: bool) {
        if range.inclusive {
            range.start <= range.end
        } else {
            range.start < range.end
        }
    }

    fn gen(rng: &mut ThreadRng) -> u64 {
        gen_u64(rng)
    }

    fn gen_range(rng: &mut ThreadRng, range: PropRange<u64>) -> (value: u64)
        ensures
            range.start <= value,
            range.inclusive ==> value <= range.end,
            !range.inclusive ==> value < range.end,
    {
        if range.inclusive {
            gen_range_inclusive_u64(rng, range.start, range.end)
        } else {
            gen_range_u64(rng, range.start, range.end)
        }
    }
}

impl PropRand for u128 {
    open spec fn can_sample(range: PropRange<u128>) -> bool {
        bounds_can_sample(range.start as int, range.end as int, range.inclusive)
    }

    open spec fn lies_in(self, range: PropRange<u128>) -> bool {
        bounds_hold(self as int, range.start as int, range.end as int, range.inclusive)
    }

    fn check_range(range: &PropRange<u128>) -> (ok: bool) {
        if range.inclusive {
            range.start <= range.end
        } else {
            range.start < range.end
        }
    }

    fn gen(rng: &mut ThreadRng) -> u128 {
        gen_u128(rng)
    }

    fn gen_range(rng: &mut ThreadRng, range: PropRange<u128>) -> (value: u128)
        ensures
            range.start <= value,
            range.inclusive ==> value <= range.end,
            !range.inclusive ==> value < range.end,
    {
        if range.inclusive {
            gen_range_inclusive_u128(rng, range.start, range.end)
        } else {
            gen_range_u128(rng, range.start, range.end)
        }
    }
}

impl PropRand for i8 {
    open spec fn can_sample(range: PropRange<i8>) -> bool {
        bounds_can_sample(range.start as int, range.end as int, range.inclusive)
    }

    open spec fn lies_in(self, range: PropRange<i8>) -> bool {
        bounds_hold(self as int, range.start as int, range.end as int, range.inclusive)
    }

    fn check_range(range: &PropRange<i8>) -> (ok: bool) {
        if range.inclusive {
            range.start <= range.end
        } else {
            range.start < range.end
        }
    }

    fn gen(rng: &mut ThreadRng) -> i8 {
        gen_i8(rng)
    }

    fn gen_range(rng: &mut ThreadRng, range: PropRange<i8>) -> (value: i8)
        ensures
            range.start <= value,
            range.inclusive ==> value <= range.end,
            !range.inclusive ==> value < range.end,
    {
        if range.inclusive {
            gen_range_inclusive_i8(rng, range.start, range.end)
        } else {
            gen_range_i8(rng, range.start, range.end)
        }
    }
}

impl PropRand for i16 {
    open spec fn can_sample(range: PropRange<i16>) -> bool {
        bounds_can_sample(range.start as int, range.end as int, range.inclusive)
    }

    open spec fn lies_in(self, range: PropRange<i16>) -> bool {
        bounds_hold(self as int, range.start as int, range.end as int, range.inclusive)
    }

    fn check_range(range: &PropRange<i16>) -> (ok: bool) {
        if range.inclusive {
            range.start <= range.end
        } else {
            range.start < range.end
        }
    }

    fn gen(rng: &mut ThreadRng) -> i16 {
        gen_i16(rng)
    }

    fn gen_range(rng: &mut ThreadRng, range: PropRange<i16>) -> (value: i16)
        ensures
            range.start <= value,
            range.inclusive ==> value <= range.end,
            !range.inclusive ==> value < range.end,
    {
        if range.inclusive {
            gen_range_inclusive_i16(rng, range.start, range.end)
        } else {
            gen_range_i16(rng, range.start, range.end)
        }
    }
}

impl PropRand for i32 {
    open spec fn can_sample(range: PropRange<i32>) -> bool {
        bounds_can_sample(range.start as int, range.end as int, range.inclusive)
    }

    open spec fn lies_in(self, range: PropRange<i32>) -> bool {
        bounds_hold(self as int, range.start as int, range.end as int, range.inclusive)
    }

    fn check_range(range: &PropRange<i32>) -> (ok: bool) {
        if range.inclusive {
            range.start <= range.end
        } else {
            range.start < range.end
        }
    }

    fn gen(rng: &mut ThreadRng) -> i32 {
        gen_i32(rng)
    }

    fn gen_range(rng: &mut ThreadRng, range: PropRange<i32>) -> (value: i32)
        ensures
            range.start <= value,
            range.inclusive ==> value <= range.end,
            !range.inclusive ==> value < range.end,
    {
        if range.inclusive {
            gen_range_inclusive_i32(rng, range.start, range.end)
        } else {
            gen_range_i32(rng, range.start, range.end)
        }
    }
}

impl PropRand for i64 {
    open spec fn can_sample(range: PropRange<i64>) -> bool {
        bounds_can_sample(range.start as int, range.end as int, range.inclusive)
    }

    open spec fn lies_in(self, range: PropRange<i64>) -> bool {
        bounds_hold(self as int, range.start as int, range.end as int, range.inclusive)
    }

    fn check_range(range: &PropRange<i64>) -> (ok: bool) {
        if range.inclusive {
            range.start <= range.end
        } else {
            range.start < range.end
        }
    }

    fn gen(rng: &mut ThreadRng) -> i64 {
        gen_i64(rng)
    }

    fn gen_range(rng: &mut ThreadRng, range: PropRange<i64>) -> (value: i64)
        ensures
            range.start <= value,
            range.inclusive ==> value <= range.end,
            !range.inclusive ==> value < range.end,
    {
        if range.inclusive {
            gen_range_inclusive_i64(rng, range.start, range.end)
        } else {
            gen_range_i64(rng, range.start, range.end)
        }
    }
}

impl PropRand for i128 {
    open spec fn can_sample(range: PropRange<i128>) -> bool {
        bounds_can_sample(range.start as int, range.end as int, range.inclusive)
    }

    open spec fn lies_in(self, range: PropRange<i128>) -> bool {
        bounds_hold(self as int, range.start as int, range.end as int, range.inclusive)
    }

    fn check_range(range: &PropRange<i128>) -> (ok: bool) {
        if range.inclusive {
            range.start <= range.end
        } else {
            range.start < range.end
        }
    }

    fn gen(rng: &mut ThreadRng) -> i128 {
        gen_i128(rng)
    }

    fn gen_range(rng: &mut ThreadRng, range: PropRange<i128>) -> (value: i128)
        ensures
            range.start <= value,
            range.inclusive ==> value <= range.end,
            !range.inclusive ==> value < range.end,
    {
        if range.inclusive {
            gen_range_inclusive_i128(rng, range.start, range.end)
        } else {
            gen_range_i128(rng, range.start, range.end)
        }
    }
}

} // verus!
