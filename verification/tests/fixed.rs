use tlms::fixed::{is_on_globe, Fixed, FIXED_SCALE};

#[test]
fn fixed_holds_its_units() {
    assert_eq!(FIXED_SCALE, 10_000_000);
    assert_eq!(Fixed::from_units(510_500_000).units(), 510_500_000);
    assert_eq!(Fixed::from_units(i64::MIN).units(), i64::MIN);
}

#[test]
fn fixed_from_whole_scales() {
    assert_eq!(Fixed::from_whole(51).units(), 510_000_000);
    assert_eq!(Fixed::from_whole(-180).units(), -1_800_000_000);
    assert_eq!(Fixed::from_whole(0).units(), 0);
    assert_eq!(Fixed::from_whole(i32::MAX).units(), 21_474_836_470_000_000);
    assert_eq!(Fixed::from_whole(i32::MIN).units(), -21_474_836_480_000_000);
}

#[test]
fn fixed_mean_rounds_down() {
    let mean = |a: i64, b: i64| Fixed::from_units(a).mean(Fixed::from_units(b)).units();
    assert_eq!(mean(2, 4), 3);
    assert_eq!(mean(2, 5), 3);
    assert_eq!(mean(-2, -5), -4);
    assert_eq!(mean(-1, 0), -1);
    assert_eq!(mean(-1, 1), 0);
    assert_eq!(mean(-1, 2), 0);
    assert_eq!(mean(7, 7), 7);
    assert_eq!(mean(i64::MAX, i64::MAX), i64::MAX);
    assert_eq!(mean(i64::MIN, i64::MIN), i64::MIN);
    assert_eq!(mean(i64::MIN, i64::MAX), -1);
    assert_eq!(mean(i64::MAX, i64::MAX - 1), i64::MAX - 1);
}

#[test]
fn fixed_mean_is_symmetric() {
    for (a, b) in [(3, 8), (-5, 12), (0, -1), (i64::MIN, 17)] {
        let left = Fixed::from_units(a).mean(Fixed::from_units(b));
        let right = Fixed::from_units(b).mean(Fixed::from_units(a));
        assert_eq!(left, right);
    }
}

#[test]
fn positions_on_the_globe() {
    let at = |lat: i64, lon: i64| is_on_globe(Fixed::from_units(lat), Fixed::from_units(lon));
    assert!(at(0, 0));
    assert!(at(510_500_000, 137_400_000));
    assert!(at(900_000_000, 1_800_000_000));
    assert!(at(-900_000_000, -1_800_000_000));
    assert!(!at(900_000_001, 0));
    assert!(!at(-900_000_001, 0));
    assert!(!at(0, 1_800_000_001));
    assert!(!at(0, -1_800_000_001));
    assert!(!at(i64::MAX, 0));
    assert!(!at(0, i64::MIN));
}
