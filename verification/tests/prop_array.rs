use bevy_variable_property::prop_array::PropArray;

#[test]
fn a_wrapped_array_holds_what_it_was_given() {
    let wrapped = PropArray::from([3u8, 1, 4]);
    assert_eq!(wrapped.0, [3, 1, 4]);
    assert_eq!(*wrapped, [3, 1, 4]);
    assert_eq!(wrapped[1], 1);
    assert_eq!(wrapped.len(), 3);
    let inner: [u8; 3] = wrapped.into();
    assert_eq!(inner, [3, 1, 4]);
}

#[test]
fn a_wrapped_array_can_be_changed_in_place() {
    let mut wrapped = PropArray([1i32, 2]);
    wrapped[0] = 7;
    wrapped.reverse();
    assert_eq!(wrapped.0, [2, 7]);
    let copy = wrapped.clone();
    assert_eq!(copy.0, [2, 7]);
}

#[test]
fn the_default_wrapped_array_holds_defaults() {
    let wrapped: PropArray<u16, 4> = PropArray::default();
    assert_eq!(wrapped.0, [0, 0, 0, 0]);
    let none: PropArray<u16, 0> = PropArray::default();
    assert_eq!(none.0, []);
}
