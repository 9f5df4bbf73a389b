//! The names most callers need, in one place.

pub use crate::interval_property::IntervalProperty;
pub use crate::prop_range::PropRange;
pub use crate::property::Property;
pub use crate::variable_property::VariableProperty;
