use bevy_variable_property::interval_property::{IntervalProperty, DEFAULT_INTERVAL};
use bevy_variable_property::property_component::{
    IntervalPropertyBuilder, MAX_SECS, NANOS_PER_SEC,
};
use bevy_variable_property::variable_property::PropertyError;
use bevy_variable_property::Property;

#[test]
fn nothing_is_produced_before_the_period_runs_out() {
    let mut latch = IntervalProperty::new(Property::Static(5u32), 100);
    assert_eq!(latch.get_curr_value(), None);
    assert_eq!(latch.tick_value(40), None);
    assert_eq!(latch.tick_value(0), None);
    assert_eq!(latch.tick_value(59), None);
    assert_eq!(latch.get_curr_value(), None);
    assert_eq!(latch.tick_value(1), Some(&5));
    assert_eq!(latch.get_curr_value(), Some(&5));
}

#[test]
fn a_long_tick_fires_once() {
    let mut latch = IntervalProperty::new(Property::Static(5u32), 100);
    assert_eq!(latch.tick_value(1_000_000), Some(&5));
    assert_eq!(latch.tick_value(0), None);
    assert_eq!(latch.tick_value(99), None);
    assert_eq!(latch.tick_value(1), Some(&5));
    let mut fine = IntervalProperty::new(Property::Static(5u32), 1);
    assert_eq!(fine.tick_value(u64::MAX), Some(&5));
    assert_eq!(fine.tick_value(1 << 32), Some(&5));
    assert_eq!(fine.tick_value(0), None);
}

#[test]
fn what_is_left_over_counts_toward_the_next_period() {
    let mut latch = IntervalProperty::new(Property::Static(5u32), 100);
    assert_eq!(latch.tick_value(250), Some(&5));
    assert_eq!(latch.tick_value(49), None);
    assert_eq!(latch.tick_value(1), Some(&5));
    assert_eq!(latch.tick_value(100), Some(&5));
    assert_eq!(latch.tick_value(99), None);
    assert_eq!(latch.tick_value(u64::MAX), Some(&5));
    assert_eq!(latch.tick_value(85), None);
    assert_eq!(latch.tick_value(1), Some(&5));
}

#[test]
fn the_latched_value_holds_between_firings() {
    let producer: Property<u32> = Property::from(0..1_000_000);
    let mut latch = IntervalProperty::new(producer, 10);
    let first = *latch.tick_value(10).unwrap();
    assert!(first < 1_000_000);
    for _ in 0..9 {
        assert_eq!(latch.tick_value(1), None);
        assert_eq!(latch.get_curr_value(), Some(&first));
    }
    let mut changed = false;
    for _ in 0..100 {
        let next = *latch.tick_value(10).unwrap();
        assert!(next < 1_000_000);
        assert_eq!(latch.get_curr_value(), Some(&next));
        changed = changed || next != first;
    }
    assert!(changed);
}

#[test]
fn an_initial_value_is_held_until_the_first_firing() {
    let mut latch = IntervalProperty::new_with_initial_value(Property::Static(5u32), 100, 9);
    assert_eq!(latch.get_curr_value(), Some(&9));
    assert_eq!(latch.tick_value(99), None);
    assert_eq!(latch.get_curr_value(), Some(&9));
    assert_eq!(latch.tick_value(1), Some(&5));
    assert_eq!(latch.get_curr_value(), Some(&5));
}

#[test]
fn a_generated_initial_value_comes_from_the_producer() {
    let producer: Property<u8> = Property::from(20..=29);
    let mut latch = IntervalProperty::new_with_generated_inital_value(producer, 100);
    let held = *latch.get_curr_value().unwrap();
    assert!((20..=29).contains(&held));
    assert_eq!(latch.tick_value(99), None);
    assert_eq!(latch.get_curr_value(), Some(&held));
    let fresh = *latch.tick_value(1).unwrap();
    assert!((20..=29).contains(&fresh));
}

#[test]
fn pausing_withholds_the_value_but_not_the_tick() {
    let mut paused = IntervalProperty::new_with_initial_value(Property::Static(5u32), 100, 9);
    let mut running = IntervalProperty::new_with_initial_value(Property::Static(5u32), 100, 9);
    let mut fired = Vec::new();
    for delta in [40u64, 40, 40, 5, 75, 1_000, 0, 99, 1] {
        assert_eq!(paused.tick_value_unless_paused(delta, true), Ok(None));
        fired.push(running.tick_value(delta).is_some());
        assert_eq!(paused.get_curr_value(), running.get_curr_value());
    }
    assert_eq!(fired, vec![false, false, true, false, true, true, false, false, true]);
    assert_eq!(paused.get_curr_value(), Some(&5));
    let mut gated = IntervalProperty::new(Property::Static(5u32), 100);
    assert_eq!(gated.tick_value_unless_paused(99, false), Ok(None));
    assert_eq!(gated.tick_value_unless_paused(1, false), Ok(Some(&5)));
    assert_eq!(gated.tick_value_unless_paused(100, true), Ok(None));
    assert_eq!(gated.tick_value_unless_paused(99, false), Ok(None));
    assert_eq!(gated.tick_value_unless_paused(1, false), Ok(Some(&5)));
}

#[test]
fn a_fault_shows_only_when_the_period_completes() {
    let backwards: Property<u32> = Property::from(10..1);
    let mut latch = IntervalProperty::new_with_initial_value(backwards, 100, 3);
    assert_eq!(latch.try_tick_value(60), Ok(None));
    assert_eq!(latch.tick_value(39), None);
    assert_eq!(latch.try_tick_value(1), Err(PropertyError::InvalidRange));
    assert_eq!(latch.get_curr_value(), Some(&3));
    assert_eq!(latch.try_tick_value(99), Ok(None));
    assert_eq!(latch.tick_value_unless_paused(1, true), Err(PropertyError::InvalidRange));
    assert_eq!(latch.tick_value_unless_paused(150, false), Err(PropertyError::InvalidRange));
    assert_eq!(latch.try_tick_value(49), Ok(None));
    assert_eq!(latch.try_tick_value(1), Err(PropertyError::InvalidRange));
    let nothing: Property<u32> = Property::from(Vec::new());
    let mut latch = IntervalProperty::new(nothing, 100);
    assert_eq!(latch.try_tick_value(100), Err(PropertyError::EmptyChoice));
    assert_eq!(latch.get_curr_value(), None);
    let mut sound = IntervalProperty::new(Property::Static(5u32), 100);
    assert_eq!(sound.try_tick_value(99), Ok(None));
    assert_eq!(sound.try_tick_value(1), Ok(Some(&5)));
}

#[test]
fn the_default_latch_ticks_once_per_second() {
    let mut latch: IntervalProperty<Property<u32>> = IntervalProperty::default();
    assert_eq!(DEFAULT_INTERVAL, 1_000_000_000);
    assert_eq!(latch.get_curr_value(), None);
    assert_eq!(latch.tick_value(999_999_999), None);
    assert_eq!(latch.tick_value(1), Some(&0));
}

#[test]
fn the_builder_collects_producer_and_period() {
    assert_eq!(NANOS_PER_SEC, 1_000_000_000);
    assert_eq!(MAX_SECS, u64::MAX / NANOS_PER_SEC);
    let mut latch = IntervalPropertyBuilder::new(Property::Static(1u8))
        .with_secs(2)
        .with_property(Property::Static(3u8))
        .build();
    assert_eq!(latch.get_curr_value(), None);
    assert_eq!(latch.tick_value(1_999_999_999), None);
    assert_eq!(latch.tick_value(1), Some(&3));
    let mut by_default = IntervalPropertyBuilder::<Property<u8>>::default().build();
    assert_eq!(by_default.tick_value(999_999_999), None);
    assert_eq!(by_default.tick_value(1), Some(&0));
    let mut longest = IntervalPropertyBuilder::new(Property::Static(1u8)).with_secs(MAX_SECS).build();
    assert_eq!(longest.tick_value(MAX_SECS * NANOS_PER_SEC - 1), None);
    assert_eq!(longest.tick_value(1), Some(&1));
}
