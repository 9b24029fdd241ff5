use mouse_trail::arrow::{clamped_scale_tenths, delta_sq_mag, scale_class, PointerTracker, ScaleClass};
use mouse_trail::hit_test_after;

#[test]
fn zero_delta_scales_to_floor() {
    // Raw factor 0 is below 1, so the scale is clamped up to exactly 1.0.
    let c = scale_class(0, 0);
    assert_eq!(c, ScaleClass::Floor);
    assert_eq!(clamped_scale_tenths(c), Some(10));
}

#[test]
fn large_delta_is_forced_to_ceiling() {
    // Delta (30, 0): raw factor sqrt(900)/5 = 6.0 is above 4, forced to 5.0.
    let c = scale_class(30, 0);
    assert_eq!(c, ScaleClass::Ceiling);
    assert_eq!(clamped_scale_tenths(c), Some(50));
}

#[test]
fn small_delta_scales_to_floor() {
    // Delta (3, 0): raw factor sqrt(9)/5 = 0.6 is below 1, clamped to 1.0.
    let c = scale_class(3, 0);
    assert_eq!(c, ScaleClass::Floor);
    assert_eq!(clamped_scale_tenths(c), Some(10));
}

#[test]
fn clamp_thresholds_are_asymmetric() {
    // Raw factor exactly 1 is not floored, and exactly 4 is not forced:
    // the band (4, 5] stays raw, as the original's thresholds have it.
    assert_eq!(scale_class(5, 0), ScaleClass::Raw);
    assert_eq!(scale_class(20, 0), ScaleClass::Raw);
    assert_eq!(scale_class(21, 0), ScaleClass::Ceiling);
    assert_eq!(clamped_scale_tenths(ScaleClass::Raw), None);
}

#[test]
fn squared_magnitude_is_exact() {
    assert_eq!(delta_sq_mag(3, 4), 25);
    assert_eq!(delta_sq_mag(-3, 4), 25);
    assert_eq!(delta_sq_mag(0, 0), 0);
    assert_eq!(delta_sq_mag(0x1_0000_0000, 0x1_0000_0000), 2 * (1i128 << 64));
}

#[test]
fn tracker_records_position_and_delta() {
    let mut t = PointerTracker::new();
    t.observe(10, 5);
    assert_eq!((t.x, t.y), (10, 5));
    assert_eq!((t.delta_x, t.delta_y), (-10, -5));
    t.observe(7, 9);
    assert_eq!((t.x, t.y), (7, 9));
    assert_eq!((t.delta_x, t.delta_y), (3, -4));
}

#[test]
fn tracker_ignores_unchanged_position() {
    let mut t = PointerTracker::new();
    t.observe(10, 5);
    t.observe(10, 5);
    assert_eq!((t.x, t.y), (10, 5));
    assert_eq!((t.delta_x, t.delta_y), (-10, -5));
}

#[test]
fn passthrough_toggles_only_on_press() {
    assert_eq!(hit_test_after(true, true), false);
    assert_eq!(hit_test_after(true, false), true);
    assert_eq!(hit_test_after(false, true), true);
    assert_eq!(hit_test_after(false, false), false);
}
