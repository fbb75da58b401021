use ethereal_waves::helpers::{clamp, is_double_click, within_threshold};
use std::time::{Duration, Instant};

#[test]
fn clamp_keeps_a_value_within_the_bounds() {
    assert_eq!(clamp(5, 0, 10), 5);
    assert_eq!(clamp(0, 0, 10), 0);
    assert_eq!(clamp(10, 0, 10), 10);
}

#[test]
fn clamp_raises_to_the_lower_bound() {
    assert_eq!(clamp(-3, 0, 10), 0);
    assert_eq!(clamp(i64::MIN, -7, 7), -7);
}

#[test]
fn clamp_lowers_to_the_upper_bound() {
    assert_eq!(clamp(11, 0, 10), 10);
    assert_eq!(clamp(u8::MAX, 1, 2), 2);
}

#[test]
fn clamp_tries_the_lower_bound_first_where_the_bounds_cross() {
    assert_eq!(clamp(5, 10, 0), 10);
    assert_eq!(clamp(20, 10, 0), 0);
}

#[test]
fn clamp_works_on_floats() {
    assert_eq!(clamp(0.5f32, 0.0, 1.0), 0.5);
    assert_eq!(clamp(-0.5f32, 0.0, 1.0), 0.0);
    assert_eq!(clamp(1.5f64, 0.0, 1.0), 1.0);
    assert!(clamp(f32::NAN, 0.0, 1.0).is_nan());
}

#[test]
fn clamp_works_on_strings() {
    assert_eq!(clamp("m", "a", "f"), "f");
    assert_eq!(clamp("c", "a", "f"), "c");
}

#[test]
fn threshold_counts_in_whole_milliseconds() {
    assert!(within_threshold(0, 0));
    assert!(!within_threshold(1, 0));
    assert!(within_threshold(499_999_999, 500));
    assert!(within_threshold(500_000_000, 500));
    assert!(!within_threshold(500_000_001, 500));
}

#[test]
fn threshold_does_not_overflow() {
    let largest = u64::MAX as u128 * 1_000_000;
    assert!(within_threshold(largest, u64::MAX));
    assert!(!within_threshold(largest + 1, u64::MAX));
    assert!(!within_threshold(u128::MAX, u64::MAX));
}

#[test]
fn a_click_right_after_another_is_a_double_click() {
    assert!(is_double_click(Instant::now(), 60_000));
}

#[test]
fn a_click_long_after_another_is_no_double_click() {
    let now = Instant::now();
    if let Some(last) = now.checked_sub(Duration::from_secs(10)) {
        assert!(!is_double_click(last, 1_000));
    }
}

#[test]
fn a_click_before_the_last_one_counts_as_no_time_passed() {
    let later = Instant::now() + Duration::from_secs(3600);
    assert!(is_double_click(later, 0));
}
