//! The one operation every producer offers: give a value now.

use vstd::prelude::*;

verus! {

/// Why a producer cannot give a value.
#[derive(Clone, Copy, Debug, PartialEq, Eq, Structural)]
pub enum PropertyError {
    /// A range whose `start` lies above its `end`, or meets it while `end`
    /// is left out.
    InvalidRange,
    /// A list of choices with nothing in it.
    EmptyChoice,
}

/// Something that can be asked for a value, any number of times.
pub trait VariableProperty {
    type Output;

    /// What stops this producer from giving a value, if anything does.
    spec fn fault(&self) -> Option<PropertyError>;

    /// Whether `value` is one that this producer may give.
    spec fn may_yield(&self, value: Self::Output) -> bool;

    /// Looks for what would stop this producer, without drawing anything.
    fn find_fault(&self) -> (found: Option<PropertyError>)
        ensures
            found == self.fault(),
    ;

    /// Gives a value. The producer must be free of faults.
    fn get_value(&self) -> (value: Self::Output)
        requires
            self.fault() is None,
        ensures
            self.may_yield(value),
    ;

    /// Gives a value, or reports the fault that stops this producer.
    fn try_get_value(&self) -> (outcome: Result<Self::Output, PropertyError>)
        ensures
            self.fault() is None ==> outcome is Ok && self.may_yield(outcome->Ok_0),
            self.fault() is Some ==> outcome is Err && outcome->Err_0 == self.fault()->Some_0,
    {
        match self.find_fault() {
            Some(error) => Err(error),
            None => Ok(self.get_value()),
        }
    }
}

} // verus!
