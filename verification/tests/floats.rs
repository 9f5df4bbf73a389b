use bevy_variable_property::prop_rand::PropRand;
use bevy_variable_property::prop_range::PropRange;
use bevy_variable_property::variable_property::{PropertyError, VariableProperty};
use bevy_variable_property::Property;
use rand::rngs::ThreadRng;
use rand::Rng;
use std::ops::Range;

/// A floating-point number that can be drawn as the integers of the library
/// are.
#[derive(Clone, Copy, Debug, PartialEq, PartialOrd)]
struct Real(f32);

impl PropRand for Real {
    fn can_sample(range: PropRange<Real>) -> bool {
        if range.inclusive {
            range.start.0 <= range.end.0
        } else {
            range.start.0 < range.end.0
        }
    }

    fn lies_in(self, range: PropRange<Real>) -> bool {
        range.start.0 <= self.0
            && if range.inclusive { self.0 <= range.end.0 } else { self.0 < range.end.0 }
    }

    fn check_range(range: &PropRange<Real>) -> bool {
        Real::can_sample(*range)
    }

    fn gen(rng: &mut ThreadRng) -> Real {
        Real(rng.gen())
    }

    fn gen_range(rng: &mut ThreadRng, range: PropRange<Real>) -> Real {
        if range.inclusive {
            Real(rng.gen_range(range.start.0..=range.end.0))
        } else {
            Real(rng.gen_range(range.start.0..range.end.0))
        }
    }
}

fn reals(range: &Range<f32>) -> Range<Real> {
    Real(range.start)..Real(range.end)
}

#[test]
fn range_generation() {
    let ranges = (2.5..5.0, -10.0..0.0, 0.0..1.0);
    let vec3_generator: (Property<Real>, Property<Real>, Property<Real>) = (
        reals(&ranges.0).into(),
        reals(&ranges.1).into(),
        reals(&ranges.2).into(),
    );
    let (Real(x), Real(y), Real(z)) = vec3_generator.get_value();
    assert!(
        ranges.0.contains(&x),
        "{} was not in the range of ({}..{})",
        x,
        ranges.0.start,
        ranges.0.end
    );
    assert!(
        ranges.1.contains(&y),
        "{} was not in the range of ({}..{})",
        y,
        ranges.1.start,
        ranges.1.end
    );
    assert!(
        ranges.2.contains(&z),
        "{} was not in the range of ({}..{})",
        z,
        ranges.2.start,
        ranges.2.end
    );
}

#[test]
#[should_panic]
fn bad_range() {
    let p: Property<Real> = Property::from(Real(10.0)..Real(1.0));
    p.get_value();
}

#[test]
#[should_panic]
fn bad_array_range() {
    let p: Property<[Real; 2]> =
        Property::from([Real(0.0), Real(10.0)]..[Real(1.0), Real(5.0)]);
    p.get_value();
}

#[test]
fn tuples() {
    let p = Property::Static((Real(1.0), Real(5.0)));
    p.get_value();
}

#[test]
fn bad_float_ranges_are_reported() {
    let p: Property<Real> = Property::from(Real(10.0)..Real(1.0));
    assert_eq!(p.try_get_value(), Err(PropertyError::InvalidRange));
    let p: Property<[Real; 2]> =
        Property::from([Real(0.0), Real(10.0)]..[Real(1.0), Real(5.0)]);
    assert_eq!(p.try_get_value(), Err(PropertyError::InvalidRange));
    let p: Property<Real> = Property::from(Real(f32::NAN)..=Real(1.0));
    assert_eq!(p.try_get_value(), Err(PropertyError::InvalidRange));
}

#[test]
fn three_float_axes_keep_their_own_ranges() {
    let axes: [Property<Real>; 3] = [
        Property::from(Real(0.0)..Real(1.0)),
        Property::from(Real(10.0)..Real(20.0)),
        Property::from(Real(-3.0)..=Real(-2.0)),
    ];
    for _ in 0..10_000 {
        let [Real(x), Real(y), Real(z)] = axes.get_value();
        assert!((0.0..1.0).contains(&x));
        assert!((10.0..20.0).contains(&y));
        assert!((-3.0..=-2.0).contains(&z));
    }
}
