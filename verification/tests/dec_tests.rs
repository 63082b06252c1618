use ollo::dec::Dec256;

#[test]
fn zero_has_empty_limbs() {
    let z = Dec256::zero();
    assert_eq!(z.hi, 0);
    assert_eq!(z.lo, 0);
}

#[test]
fn from_atomics_at_native_precision() {
    let d = Dec256::from_atomics(100, 6);
    assert_eq!(d.hi, 0);
    assert_eq!(d.lo, 100_000_000_000_000);
}

#[test]
fn from_atomics_at_eighteen_places_is_identity() {
    let d = Dec256::from_atomics(123_456_789, 18);
    assert_eq!(d.hi, 0);
    assert_eq!(d.lo, 123_456_789);
}

#[test]
fn from_atomics_scales_up_at_precision_zero() {
    let d = Dec256::from_atomics(100, 0);
    assert_eq!(d.hi, 0);
    assert_eq!(d.lo, 100_000_000_000_000_000_000);
}

#[test]
fn from_atomics_fills_the_upper_limb() {
    let d = Dec256::from_atomics(u128::MAX, 0);
    assert_eq!(d.hi, 999_999_999_999_999_999);
    assert_eq!(d.lo, 340_282_366_920_938_463_462_374_607_431_768_211_456);
}

#[test]
fn from_atomics_rounds_down_above_eighteen_places() {
    let d = Dec256::from_atomics(123_456_789, 25);
    assert_eq!(d.hi, 0);
    assert_eq!(d.lo, 12);
}

#[test]
fn from_atomics_collapses_tiny_values_to_zero() {
    let d = Dec256::from_atomics(u128::MAX, 57);
    assert_eq!(d.hi, 0);
    assert_eq!(d.lo, 0);
    let d = Dec256::from_atomics(u128::MAX, u32::MAX);
    assert_eq!(d, Dec256::zero());
}
