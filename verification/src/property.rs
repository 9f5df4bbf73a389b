//! The four ways a slot can produce its value.

use crate::prop_rand::PropRand;
use crate::prop_range::PropRange;
use crate::random_source::choose_item;
use crate::variable_property::{PropertyError, VariableProperty};
use vstd::prelude::*;

verus! {

/// A slot that is fixed, drawn from a range, picked from a list, or fully
/// random each time it is read.
#[derive(Clone, Debug)]
pub enum Property<T> {
    /// Always the stored value.
    Static(T),
    /// A fresh draw from the range on every read.
    RandomRange(PropRange<T>),
    /// One of the listed values on every read. The list must not be empty
    /// when the slot is read.
    RandomChoice(Vec<T>),
    /// Any value of the type on every read.
    Random,
}

impl<T: Default> Default for Property<T> {
    /// A fixed slot that holds the default value of its type.
    fn default() -> (property: Self)
        ensures
            property matches Property::Static(fixed) && call_ensures(T::default, (), fixed),
    {
        Property::Static(T::default())
    }
}

impl<T: PropRand + Copy> VariableProperty for Property<T> {
    type Output = T;

    /// A range that cannot be sampled, or a list with nothing to pick.
    open spec fn fault(&self) -> Option<PropertyError> {
        match self {
            Property::RandomRange(range) if !T::can_sample(*range) => Some(
                PropertyError::InvalidRange,
            ),
            Property::RandomChoice(choices) if choices@.len() == 0 => Some(
                PropertyError::EmptyChoice,
            ),
            _ => None,
        }
    }

    /// The stored value, a value within the range, one of the listed values,
    /// or anything at all.
    open spec fn may_yield(&self, value: T) -> bool {
        match self {
            Property::Static(fixed) => value == *fixed,
            Property::RandomRange(range) => value.lies_in(*range),
            Property::RandomChoice(choices) => choices@.contains(value),
            Property::Random => true,
        }
    }

    fn find_fault(&self) -> (found: Option<PropertyError>) {
        match self {
            Property::RandomRange(range) => {
                if T::check_range(range) {
                    None
                } else {
                    Some(PropertyError::InvalidRange)
                }
            },
            Property::RandomChoice(choices) => {
                if choices.len() == 0 {
                    Some(PropertyError::EmptyChoice)
                } else {
                    None
                }
            },
            _ => None,
        }
    }

    fn get_value(&self) -> (value: T)
        ensures
            self matches Property::Static(fixed) ==> value == *fixed,
            self matches Property::RandomRange(range) ==> value.lies_in(*range),
            self matches Property::RandomChoice(choices) ==> choices@.contains(value),
    {
        match self {
            Property::Static(fixed) => *fixed,
            Property::RandomRange(range) => {
                let mut rng = rand::thread_rng();
                T::gen_range(&mut rng, *range)
            },
            Property::RandomChoice(choices) => {
                let mut rng = rand::thread_rng();
                match choose_item(&mut rng, choices) {
                    Some(picked) => *picked,
                    None => unreached(),
                }
            },
            Property::Random => {
                let mut rng = rand::thread_rng();
                T::gen(&mut rng)
            },
        }
    }
}

/// A fixed slot has no fault, and the one value it may give is the value it
/// holds.
pub proof fn lemma_static_gives_its_value<T: PropRand + Copy>(fixed: T, value: T)
    ensures
        Property::Static(fixed).fault() is None,
        Property::Static(fixed).may_yield(value) <==> value == fixed,
{
}

/// A slot over a range is at fault exactly when the range cannot be sampled,
/// and the fault is then [`PropertyError::InvalidRange`].
pub proof fn lemma_bad_range_is_a_fault<T: PropRand + Copy>(range: PropRange<T>)
    ensures
        T::can_sample(range) ==> Property::RandomRange(range).fault() is None,
        !T::can_sample(range) ==> Property::RandomRange(range).fault() == Some(
            PropertyError::InvalidRange,
        ),
{
}

/// A slot over a list is at fault exactly when the list is empty, the fault
/// is then [`PropertyError::EmptyChoice`], and otherwise the values it may
/// give are the listed ones.
pub proof fn lemma_choice_stays_in_list<T: PropRand + Copy>(choices: Vec<T>, value: T)
    ensures
        choices@.len() > 0 ==> Property::RandomChoice(choices).fault() is None,
        choices@.len() == 0 ==> Property::RandomChoice(choices).fault() == Some(
            PropertyError::EmptyChoice,
        ),
        Property::RandomChoice(choices).may_yield(value) <==> choices@.contains(value),
{
}

} // verus!
