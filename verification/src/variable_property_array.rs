//! Arrays of producers, read position by position.

use crate::prop_rand_array::array_from_vec;
use crate::variable_property::{PropertyError, VariableProperty};
use vstd::prelude::*;

verus! {

/// The first fault in a row of findings, read from the left.
pub open spec fn first_fault(faults: Seq<Option<PropertyError>>) -> Option<PropertyError>
    decreases faults.len(),
{
    if faults.len() == 0 {
        None
    } else if faults[0] is Some {
        faults[0]
    } else {
        first_fault(faults.drop_first())
    }
}

/// What each producer of an array reports, position by position.
pub open spec fn faults_of<U: VariableProperty, const N: usize>(producers: [U; N]) -> Seq<
    Option<PropertyError>,
> {
    Seq::new(N as nat, |i: int| producers[i].fault())
}

/// A row has no first fault exactly when none of its findings is a fault.
pub proof fn lemma_first_fault_none(faults: Seq<Option<PropertyError>>)
    ensures
        first_fault(faults) is None <==> forall|i: int| 0 <= i < faults.len() ==> faults[i] is None,
    decreases faults.len(),
{
    if faults.len() > 0 {
        let rest = faults.drop_first();
        lemma_first_fault_none(rest);
        if faults[0] is None && first_fault(faults) is None {
            assert forall|i: int| 0 <= i < faults.len() implies faults[i] is None by {
                if i > 0 {
                    assert(faults[i] == rest[i - 1]);
                }
            }
        }
        if forall|i: int| 0 <= i < faults.len() ==> faults[i] is None {
            assert forall|i: int| 0 <= i < rest.len() implies rest[i] is None by {
                assert(rest[i] == faults[i + 1]);
            }
        }
    }
}

/// The first fault of a row is the finding at `at` when that one is a fault
/// and nothing to its left is.
pub proof fn lemma_first_fault_at(faults: Seq<Option<PropertyError>>, at: int)
    requires
        0 <= at < faults.len(),
        faults[at] is Some,
        forall|i: int| 0 <= i < at ==> faults[i] is None,
    ensures
        first_fault(faults) == faults[at],
    decreases at,
{
    if at > 0 {
        let rest = faults.drop_first();
        assert(faults[0] is None);
        assert(rest[at - 1] == faults[at]);
        assert forall|i: int| 0 <= i < at - 1 implies rest[i] is None by {
            assert(rest[i] == faults[i + 1]);
        }
        lemma_first_fault_at(rest, at - 1);
    }
}

/// What one position of an array of producers may give does not depend on
/// what the other positions give: taking each position from either of two
/// possible outcomes gives a possible outcome again.
pub proof fn lemma_positions_are_independent<U: VariableProperty, const N: usize>(
    producers: [U; N],
    left: [U::Output; N],
    right: [U::Output; N],
    mixed: [U::Output; N],
)
    requires
        producers.may_yield(left),
        producers.may_yield(right),
        forall|i: int| 0 <= i < N ==> mixed[i] == left[i] || mixed[i] == right[i],
    ensures
        producers.may_yield(mixed),
{
    assert forall|i: int| 0 <= i < N implies (#[trigger] producers[i]).may_yield(mixed[i]) by {
        assert(producers[i].may_yield(left[i]));
        assert(producers[i].may_yield(right[i]));
    }
}

impl<U: VariableProperty, const N: usize> VariableProperty for [U; N] {
    type Output = [U::Output; N];

    /// The fault of the leftmost producer that has one.
    open spec fn fault(&self) -> Option<PropertyError> {
        first_fault(faults_of(*self))
    }

    /// Every position holds a value that the producer at that position may
    /// give.
    open spec fn may_yield(&self, value: [U::Output; N]) -> bool {
        forall|i: int| 0 <= i < N ==> (#[trigger] self[i]).may_yield(value[i])
    }

    fn find_fault(&self) -> (found: Option<PropertyError>) {
        let mut i: usize = 0;
        while i < N
            invariant
                i <= N,
                forall|j: int| 0 <= j < i ==> faults_of(*self)[j] is None,
            decreases N - i,
        {
            let found = self[i].find_fault();
            if found.is_some() {
                proof {
                    lemma_first_fault_at(faults_of(*self), i as int);
                }
                return found;
            }
            i += 1;
        }
        proof {
            lemma_first_fault_none(faults_of(*self));
        }
        None
    }

    fn get_value(&self) -> (value: [U::Output; N]) {
        proof {
            lemma_first_fault_none(faults_of(*self));
        }
        let mut given: Vec<U::Output> = Vec::new();
        let mut i: usize = 0;
        while i < N
            invariant
                i <= N,
                given@.len() == i,
                forall|j: int| 0 <= j < N ==> faults_of(*self)[j] is None,
                forall|j: int| 0 <= j < i ==> (#[trigger] self[j]).may_yield(given@[j]),
            decreases N - i,
        {
            assert(faults_of(*self)[i as int] is None);
            given.push(self[i].get_value());
            i += 1;
        }
        match array_from_vec(given) {
            Ok(out) => out,
            Err(_) => unreached(),
        }
    }
}

} // verus!
