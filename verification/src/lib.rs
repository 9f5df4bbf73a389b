//! Value slots that yield a fixed constant, a uniform sample from a range, a
//! uniform pick from a list, or a fully random value each time they are read,
//! together with a timer-driven latch that refreshes such a value on an
//! interval.

pub mod conversions;
pub mod interval_property;
pub mod prelude;
pub mod prop_array;
pub mod prop_rand;
pub mod prop_rand_array;
pub mod prop_rand_tuple;
pub mod prop_range;
pub mod property;
pub mod property_component;
pub mod random_source;
pub mod repeating_timer;
pub mod variable_property;
pub mod variable_property_array;
pub mod variable_property_tuple;

pub use crate::property::Property;
