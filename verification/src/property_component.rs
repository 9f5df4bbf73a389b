//! Putting an interval property together step by step.

use crate::interval_property::{IntervalProperty, DEFAULT_INTERVAL};
use crate::variable_property::VariableProperty;
use vstd::prelude::*;

verus! {

/// The nanoseconds in one second.
pub const NANOS_PER_SEC: u64 = 1_000_000_000;

/// The longest period, in whole seconds, whose nanoseconds still fit the
/// timer.
pub const MAX_SECS: u64 = 18_446_744_073;

/// Collects the producer and the period of an [`IntervalProperty`].
pub struct IntervalPropertyBuilder<T: VariableProperty> {
    property: T,
    interval: u64,
}

impl<T: VariableProperty + Default> Default for IntervalPropertyBuilder<T> {
    /// A builder that holds the default producer and a period of one second.
    fn default() -> (builder: Self)
        ensures
            call_ensures(T::default, (), builder.property()),
            builder.interval() == DEFAULT_INTERVAL,
    {
        Self { property: T::default(), interval: DEFAULT_INTERVAL }
    }
}

impl<T: VariableProperty> IntervalPropertyBuilder<T> {
    /// The producer that the builder holds.
    pub closed spec fn property(&self) -> T {
        self.property
    }

    /// The period that the builder holds, in nanoseconds.
    pub closed spec fn interval(&self) -> nat {
        self.interval as nat
    }

    #[verifier::type_invariant]
    spec fn well_formed(&self) -> bool {
        self.interval > 0
    }

    /// A builder that holds `property` and a period of one second.
    pub fn new(property: T) -> (builder: Self)
        ensures
            builder.property() == property,
            builder.interval() == DEFAULT_INTERVAL,
    {
        Self { property, interval: DEFAULT_INTERVAL }
    }

    /// Sets the period to `secs` whole seconds, which must be positive and
    /// at most [`MAX_SECS`].
    pub fn with_secs(self, secs: u64) -> (builder: Self)
        requires
            0 < secs <= MAX_SECS,
        ensures
            builder.property() == self.property(),
            builder.interval() == secs * NANOS_PER_SEC,
    {
        Self { property: self.property, interval: secs * NANOS_PER_SEC }
    }

    /// Puts `property` in place of the producer held so far.
    pub fn with_property(self, property: T) -> (builder: Self)
        ensures
            builder.property() == property,
            builder.interval() == self.interval(),
    {
        proof {
            use_type_invariant(&self);
        }
        Self { property, interval: self.interval }
    }

    /// The interval property over the producer and the period collected,
    /// with nothing held yet.
    pub fn build(self) -> (latch: IntervalProperty<T>)
        ensures
            latch.property() == self.property(),
            latch.period() == self.interval(),
            latch.elapsed() == 0,
            latch.current() is None,
    {
        proof {
            use_type_invariant(&self);
        }
        IntervalProperty::new(self.property, self.interval)
    }
}

} // verus!
