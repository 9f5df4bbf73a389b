//! A fixed-size array under a name of its own.

use vstd::prelude::*;
use vstd::std_specs::convert::{FromSpecImpl, IntoSpecImpl};

verus! {

/// A fixed-size array in a wrapper, for where a bare array cannot be given
/// the traits it needs.
#[derive(Clone, Debug)]
pub struct PropArray<T, const N: usize>(pub [T; N]);

impl<T: Default + Copy, const N: usize> Default for PropArray<T, N> {
    /// The array that holds the default value of `T` at every position.
    fn default() -> (array: Self)
        ensures
            forall|i: int| 0 <= i < N ==> call_ensures(T::default, (), #[trigger] array.0[i]),
            forall|i: int, j: int| 0 <= i < N && 0 <= j < N ==> array.0[i] == array.0[j],
    {
        PropArray([T::default();N])
    }
}

impl<T, const N: usize> core::ops::Deref for PropArray<T, N> {
    type Target = [T; N];

    /// The array inside.
    fn deref(&self) -> (inner: &[T; N])
        ensures
            *inner == self.0,
    {
        &self.0
    }
}

impl<T, const N: usize> From<[T; N]> for PropArray<T, N> {
    /// Wraps the array as it is.
    fn from(other: [T; N]) -> (array: Self) {
        PropArray(other)
    }
}

impl<T, const N: usize> FromSpecImpl<[T; N]> for PropArray<T, N> {
    open spec fn obeys_from_spec() -> bool {
        true
    }

    open spec fn from_spec(other: [T; N]) -> Self {
        PropArray(other)
    }
}

impl<T, const N: usize> core::ops::DerefMut for PropArray<T, N> {
    /// The array inside, open to change.
    fn deref_mut(&mut self) -> (inner: &mut [T; N])
        ensures
            *inner == old(self).0,
            final(self).0 == *final(inner),
    {
        &mut self.0
    }
}

impl<T, const N: usize> Into<[T; N]> for PropArray<T, N> {
    /// Unwraps the array as it is.
    fn into(self) -> (inner: [T; N]) {
        self.0
    }
}

impl<T, const N: usize> IntoSpecImpl<[T; N]> for PropArray<T, N> {
    open spec fn obeys_into_spec() -> bool {
        true
    }

    open spec fn into_spec(self) -> [T; N] {
        self.0
    }
}

} // verus!
