//! Drawing fixed-size arrays, position by position.

use crate::prop_rand::PropRand;
use crate::prop_range::PropRange;
use rand::rngs::ThreadRng;
use vstd::prelude::*;

verus! {

/// `TryFrom<Vec<T>>` for `[T; N]`: succeeds exactly when the vector holds `N`
/// items, and the array then holds the same items in the same order.
#[verifier::external_body]
pub(crate) fn array_from_vec<T, const N: usize>(items: Vec<T>) -> (out: Result<[T; N], Vec<T>>)
    ensures
        items@.len() == N ==> out is Ok && out->Ok_0@ == items@,
        items@.len() != N ==> out is Err,
{
    <[T; N]>::try_from(items)
}

/// The bounds that position `i` of an array-valued range gives to the
/// element drawn there; every position shares the range's one flag.
pub open spec fn element_range<T, const N: usize>(range: PropRange<[T; N]>, i: int) -> PropRange<
    T,
> {
    PropRange::new(range.start[i], range.end[i], range.inclusive)
}

impl<T: PropRand + Copy, const N: usize> PropRand for [T; N] {
    /// Every position's own bounds can be sampled.
    open spec fn can_sample(range: PropRange<[T; N]>) -> bool {
        forall|i: int| 0 <= i < N ==> T::can_sample(#[trigger] element_range(range, i))
    }

    /// Every position's value lies within that position's own bounds.
    open spec fn lies_in(self, range: PropRange<[T; N]>) -> bool {
        forall|i: int| 0 <= i < N ==> (#[trigger] self[i]).lies_in(element_range(range, i))
    }

    fn check_range(range: &PropRange<[T; N]>) -> (ok: bool) {
        let mut i: usize = 0;
        while i < N
            invariant
                i <= N,
                forall|j: int| 0 <= j < i ==> T::can_sample(#[trigger] element_range(*range, j)),
            decreases N - i,
        {
            let at = PropRange::new(range.start[i], range.end[i], range.inclusive);
            assert(at == element_range(*range, i as int));
            if !T::check_range(&at) {
                return false;
            }
            i += 1;
        }
        true
    }

    fn gen(rng: &mut ThreadRng) -> [T; N] {
        let mut drawn: Vec<T> = Vec::new();
        let mut i: usize = 0;
        while i < N
            invariant
                i <= N,
                drawn@.len() == i,
            decreases N - i,
        {
            drawn.push(T::gen(rng));
            i += 1;
        }
        match array_from_vec(drawn) {
            Ok(out) => out,
            Err(_) => unreached(),
        }
    }

    fn gen_range(rng: &mut ThreadRng, range: PropRange<[T; N]>) -> (value: [T; N]) {
        let mut drawn: Vec<T> = Vec::new();
        let mut i: usize = 0;
        while i < N
            invariant
                i <= N,
                drawn@.len() == i,
                Self::can_sample(range),
                forall|j: int|
                    0 <= j < i ==> (#[trigger] drawn@[j]).lies_in(element_range(range, j)),
            decreases N - i,
        {
            let at = PropRange::new(range.start[i], range.end[i], range.inclusive);
            assert(at == element_range(range, i as int));
            drawn.push(T::gen_range(rng, at));
            i += 1;
        }
        match array_from_vec(drawn) {
            Ok(out) => out,
            Err(_) => unreached(),
        }
    }
}

} // verus!
