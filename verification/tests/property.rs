use bevy_variable_property::prop_rand::PropRand;
use bevy_variable_property::prop_range::PropRange;
use bevy_variable_property::variable_property::{PropertyError, VariableProperty};
use bevy_variable_property::Property;

const DRAWS: usize = 10_000;

#[test]
fn array_range_generation() {
    let (start, end) = ([0usize, 25], [10, 50]);
    let array_prop: Property<[usize; 2]> = (start..=end).into();
    let [x, y] = array_prop.get_value();
    assert!(
        (start[0]..=end[0]).contains(&x),
        "{} was not in the range of ({}..{})",
        x,
        start[0],
        end[0]
    );
    assert!(
        (start[1]..=end[1]).contains(&y),
        "{} was not in the range of ({}..{})",
        y,
        start[1],
        end[1]
    );
}

#[test]
fn static_value_is_repeated() {
    let p: Property<u32> = Property::Static(7);
    for _ in 0..DRAWS {
        assert_eq!(p.get_value(), 7);
    }
    assert_eq!(p.find_fault(), None);
    assert_eq!(p.try_get_value(), Ok(7));
}

#[test]
fn static_tuple_is_repeated() {
    let p = Property::Static((1i32, 5u8));
    for _ in 0..100 {
        assert_eq!(p.get_value(), (1, 5));
    }
}

#[test]
fn exclusive_range_leaves_end_out() {
    let p: Property<i32> = Property::from(-3..4);
    let mut seen = [false; 7];
    for _ in 0..DRAWS {
        let v = p.get_value();
        assert!(v >= -3 && v < 4, "{} was not in -3..4", v);
        seen[(v + 3) as usize] = true;
    }
    assert!(seen.iter().all(|s| *s));
}

#[test]
fn inclusive_range_counts_end_in() {
    let p: Property<i32> = Property::from(-3..=4);
    let mut seen = [false; 8];
    for _ in 0..DRAWS {
        let v = p.get_value();
        assert!(v >= -3 && v <= 4, "{} was not in -3..=4", v);
        seen[(v + 3) as usize] = true;
    }
    assert!(seen.iter().all(|s| *s));
}

#[test]
fn single_point_range_gives_the_point() {
    let p: Property<u64> = Property::from(42..=42);
    for _ in 0..DRAWS {
        assert_eq!(p.get_value(), 42);
    }
    let narrow: Property<u64> = Property::from(42..43);
    for _ in 0..DRAWS {
        assert_eq!(narrow.get_value(), 42);
    }
}

#[test]
fn choice_stays_in_list_and_reaches_all() {
    let items = vec![2u16, 3, 5, 7, 11];
    let p: Property<u16> = Property::from(items.clone());
    let mut seen = vec![false; items.len()];
    for _ in 0..DRAWS {
        let v = p.get_value();
        let at = items.iter().position(|i| *i == v);
        assert!(at.is_some(), "{} is not one of the choices", v);
        seen[at.unwrap()] = true;
    }
    assert!(seen.iter().all(|s| *s));
}

#[test]
fn choice_from_array_and_slice() {
    let from_array: Property<u8> = Property::from([4u8, 9]);
    let slice: &[u8] = &[4, 9];
    let from_slice: Property<u8> = Property::from(slice);
    for _ in 0..1_000 {
        let a = from_array.get_value();
        let b = from_slice.get_value();
        assert!(a == 4 || a == 9);
        assert!(b == 4 || b == 9);
    }
    assert!(matches!(from_array, Property::RandomChoice(ref items) if items == &vec![4u8, 9]));
    assert!(matches!(from_slice, Property::RandomChoice(ref items) if items == &vec![4u8, 9]));
}

#[test]
fn random_gives_varied_values() {
    let p: Property<u64> = Property::Random;
    assert_eq!(p.find_fault(), None);
    let first = p.get_value();
    let mut varied = false;
    for _ in 0..100 {
        varied = varied || p.get_value() != first;
    }
    assert!(varied);
}

#[test]
fn invalid_range_is_reported() {
    let backwards: Property<u32> = Property::from(10..1);
    assert_eq!(backwards.find_fault(), Some(PropertyError::InvalidRange));
    assert_eq!(backwards.try_get_value(), Err(PropertyError::InvalidRange));
    let backwards_closed: Property<u32> = Property::from(10..=1);
    assert_eq!(backwards_closed.try_get_value(), Err(PropertyError::InvalidRange));
    let empty: Property<u32> = Property::from(10..10);
    assert_eq!(empty.try_get_value(), Err(PropertyError::InvalidRange));
    let point: Property<u32> = Property::from(10..=10);
    assert_eq!(point.try_get_value(), Ok(10));
}

#[test]
fn invalid_array_range_is_reported() {
    let p: Property<[i64; 2]> = Property::from([0, 10]..[1, 5]);
    assert_eq!(p.find_fault(), Some(PropertyError::InvalidRange));
    assert_eq!(p.try_get_value(), Err(PropertyError::InvalidRange));
    assert!(!<[i64; 2]>::check_range(&PropRange::new([0, 10], [1, 5], false)));
    assert!(<[i64; 2]>::check_range(&PropRange::new([0, 5], [1, 10], false)));
}

#[test]
fn empty_choice_is_reported() {
    let p: Property<i8> = Property::from(Vec::new());
    assert_eq!(p.find_fault(), Some(PropertyError::EmptyChoice));
    assert_eq!(p.try_get_value(), Err(PropertyError::EmptyChoice));
}

#[test]
fn conversions_do_not_validate() {
    let range: PropRange<i32> = (9..2).into();
    assert_eq!((range.start, range.end, range.inclusive), (9, 2, false));
    let closed: PropRange<i32> = (9..=2).into();
    assert_eq!((closed.start, closed.end, closed.inclusive), (9, 2, true));
    let built = PropRange::new(1u8, 0u8, true);
    assert_eq!((built.start, built.end, built.inclusive), (1, 0, true));
    assert!(matches!(Property::<i32>::from(9..2), Property::RandomRange(r) if r.start == 9 && r.end == 2 && !r.inclusive));
    assert!(matches!(Property::<i32>::from(9..=2), Property::RandomRange(r) if r.start == 9 && r.end == 2 && r.inclusive));
    assert!(matches!(Property::<i32>::from(6), Property::Static(6)));
    assert!(matches!(Property::<i32>::default(), Property::Static(0)));
}

fn draws_stay_within<T: PropRand + Copy + PartialOrd + std::fmt::Debug>(start: T, end: T) {
    let mut rng = rand::thread_rng();
    for inclusive in [false, true] {
        let range = PropRange::new(start, end, inclusive);
        assert!(T::check_range(&range));
        let first = T::gen_range(&mut rng, range);
        let mut varied = false;
        for _ in 0..1_000 {
            let v = T::gen_range(&mut rng, range);
            assert!(start <= v, "{:?} is below {:?}", v, start);
            if inclusive {
                assert!(v <= end, "{:?} is above {:?}", v, end);
            } else {
                assert!(v < end, "{:?} is not below {:?}", v, end);
            }
            varied = varied || v != first;
        }
        assert!(varied, "every draw gave {:?}", first);
    }
}

#[test]
fn every_integer_type_draws_within_bounds() {
    draws_stay_within(10usize, 20);
    draws_stay_within(-20isize, 20);
    draws_stay_within(250u8, 255);
    draws_stay_within(0u16, 1_000);
    draws_stay_within(7u32, 70_000);
    draws_stay_within(1u64, u64::MAX);
    draws_stay_within(5u128, 1 << 100);
    draws_stay_within(i8::MIN, i8::MAX);
    draws_stay_within(-300i16, -100);
    draws_stay_within(-1i32, 1);
    draws_stay_within(i64::MIN, 0);
    draws_stay_within(-9i128, 9);
    draws_stay_within([0u8, 100], [10, 200]);
    draws_stay_within((0u8, -5i16), (10, 5));
}

#[test]
fn every_integer_type_checks_its_bounds() {
    assert!(usize::check_range(&PropRange::new(1, 2, false)));
    assert!(!usize::check_range(&PropRange::new(2, 2, false)));
    assert!(usize::check_range(&PropRange::new(2, 2, true)));
    assert!(!usize::check_range(&PropRange::new(3, 2, true)));
    assert!(isize::check_range(&PropRange::new(-2, -1, false)));
    assert!(!isize::check_range(&PropRange::new(-1, -2, true)));
    assert!(u8::check_range(&PropRange::new(0, 255, true)));
    assert!(!u8::check_range(&PropRange::new(255, 255, false)));
    assert!(u16::check_range(&PropRange::new(9, 9, true)));
    assert!(!u16::check_range(&PropRange::new(9, 8, true)));
    assert!(u32::check_range(&PropRange::new(0, 1, false)));
    assert!(!u32::check_range(&PropRange::new(1, 0, false)));
    assert!(u64::check_range(&PropRange::new(0, u64::MAX, true)));
    assert!(!u64::check_range(&PropRange::new(u64::MAX, 0, true)));
    assert!(u128::check_range(&PropRange::new(0, 1, true)));
    assert!(!u128::check_range(&PropRange::new(0, 0, false)));
    assert!(i8::check_range(&PropRange::new(-128, 127, true)));
    assert!(!i8::check_range(&PropRange::new(127, -128, true)));
    assert!(i16::check_range(&PropRange::new(-1, 0, false)));
    assert!(!i16::check_range(&PropRange::new(0, -1, false)));
    assert!(i32::check_range(&PropRange::new(5, 5, true)));
    assert!(!i32::check_range(&PropRange::new(5, 5, false)));
    assert!(i64::check_range(&PropRange::new(i64::MIN, i64::MAX, false)));
    assert!(!i64::check_range(&PropRange::new(i64::MAX, i64::MIN, false)));
    assert!(i128::check_range(&PropRange::new(-1, 1, true)));
    assert!(!i128::check_range(&PropRange::new(1, -1, true)));
}

#[test]
fn every_integer_type_draws_freely() {
    let mut rng = rand::thread_rng();
    let mut varied = [false; 12];
    let first = (
        usize::gen(&mut rng),
        isize::gen(&mut rng),
        u8::gen(&mut rng),
        u16::gen(&mut rng),
        u32::gen(&mut rng),
        u64::gen(&mut rng),
        u128::gen(&mut rng),
        i8::gen(&mut rng),
        i16::gen(&mut rng),
        i32::gen(&mut rng),
        i64::gen(&mut rng),
        i128::gen(&mut rng),
    );
    for _ in 0..1_000 {
        varied[0] |= usize::gen(&mut rng) != first.0;
        varied[1] |= isize::gen(&mut rng) != first.1;
        varied[2] |= u8::gen(&mut rng) != first.2;
        varied[3] |= u16::gen(&mut rng) != first.3;
        varied[4] |= u32::gen(&mut rng) != first.4;
        varied[5] |= u64::gen(&mut rng) != first.5;
        varied[6] |= u128::gen(&mut rng) != first.6;
        varied[7] |= i8::gen(&mut rng) != first.7;
        varied[8] |= i16::gen(&mut rng) != first.8;
        varied[9] |= i32::gen(&mut rng) != first.9;
        varied[10] |= i64::gen(&mut rng) != first.10;
        varied[11] |= i128::gen(&mut rng) != first.11;
    }
    assert!(varied.iter().all(|v| *v));
}

#[test]
fn array_positions_keep_their_own_bounds() {
    let p: Property<[i32; 3]> = Property::from([0, 100, -50]..[10, 200, -40]);
    let mut low = [false; 3];
    let mut high = [false; 3];
    for _ in 0..DRAWS {
        let [x, y, z] = p.get_value();
        assert!((0..10).contains(&x));
        assert!((100..200).contains(&y));
        assert!((-50..-40).contains(&z));
        low[0] |= x < 5;
        high[0] |= x >= 5;
        low[1] |= y < 150;
        high[1] |= y >= 150;
        low[2] |= z < -45;
        high[2] |= z >= -45;
    }
    assert!(low.iter().all(|s| *s) && high.iter().all(|s| *s));
}

#[test]
fn array_of_producers_reads_each_position() {
    let producers: [Property<u32>; 3] =
        [Property::from(0..10), Property::from(100..=200), Property::Static(7)];
    assert_eq!(producers.find_fault(), None);
    for _ in 0..DRAWS {
        let [x, y, z] = producers.get_value();
        assert!((0..10).contains(&x));
        assert!((100..=200).contains(&y));
        assert_eq!(z, 7);
    }
}

#[test]
fn array_of_producers_reports_the_first_fault() {
    let producers: [Property<u32>; 3] =
        [Property::Static(1), Property::from(Vec::new()), Property::from(5..5)];
    assert_eq!(producers.find_fault(), Some(PropertyError::EmptyChoice));
    assert_eq!(producers.try_get_value(), Err(PropertyError::EmptyChoice));
    let producers: [Property<u32>; 2] = [Property::from(5..5), Property::from(Vec::new())];
    assert_eq!(producers.try_get_value(), Err(PropertyError::InvalidRange));
    let none: [Property<u32>; 0] = [];
    assert_eq!(none.try_get_value(), Ok([]));
}

#[test]
fn tuple_of_producers_reads_each_field() {
    let producers: (Property<u8>, Property<i64>, Property<[u16; 2]>) =
        (Property::from(1..=3), Property::from(-9..-7), Property::from([1, 2]..[2, 4]));
    assert_eq!(producers.find_fault(), None);
    for _ in 0..DRAWS {
        let (a, b, c) = producers.get_value();
        assert!((1..=3).contains(&a));
        assert!((-9..-7).contains(&b));
        assert_eq!(c[0], 1);
        assert!((2..4).contains(&c[1]));
    }
}

#[test]
fn tuple_of_producers_reports_the_first_fault() {
    let producers: (Property<u8>, Property<i64>) = (Property::from(Vec::new()), Property::from(3..1));
    assert_eq!(producers.find_fault(), Some(PropertyError::EmptyChoice));
    let producers: (Property<u8>, Property<i64>) = (Property::Random, Property::from(3..1));
    assert_eq!(producers.try_get_value(), Err(PropertyError::InvalidRange));
    let single: (Property<u8>,) = (Property::Static(3),);
    assert_eq!(single.try_get_value(), Ok((3,)));
}

#[test]
fn tuple_range_draws_each_field_from_its_own_bounds() {
    let p: Property<(u8, i32, u64)> = Property::from((0, -5, 1_000)..=(9, 5, 1_000));
    for _ in 0..DRAWS {
        let (a, b, c) = p.get_value();
        assert!((0..=9).contains(&a));
        assert!((-5..=5).contains(&b));
        assert_eq!(c, 1_000);
    }
    let uneven: Property<(u8, i32)> = Property::from((0, 5)..(9, 5));
    assert_eq!(uneven.try_get_value(), Err(PropertyError::InvalidRange));
    let wide = PropRange::new(
        (0u8, 0u8, 0u8, 0u8, 0u8, 0u8, 0u8, 0u8, 0u8, 0u8, 0u8, 0u8, 0u8, 0u8, 0u8, 0u8),
        (1u8, 2u8, 3u8, 4u8, 5u8, 6u8, 7u8, 8u8, 9u8, 10u8, 11u8, 12u8, 13u8, 14u8, 15u8, 16u8),
        false,
    );
    let mut rng = rand::thread_rng();
    let drawn = PropRand::gen_range(&mut rng, wide);
    assert!(drawn.0 < 1 && drawn.7 < 8 && drawn.15 < 16);
}
