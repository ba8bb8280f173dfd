use zeal::geometry::{Rect, constrain_rect, centered_coord, end_aligned_coord};
use zeal::decimal::{u64_to_decimal, i64_to_decimal};

#[test]
fn contains_point_edges() {
    let r = Rect::new(200, 300, 120, 40);
    assert!(r.contains_point(200, 300));
    assert!(r.contains_point(319, 339));
    assert!(r.contains_point(211, 311));
    assert!(!r.contains_point(320, 300));
    assert!(!r.contains_point(200, 340));
    assert!(!r.contains_point(199, 300));
    assert!(!r.contains_point(200, 299));
}

#[test]
fn contains_point_negative_coordinates() {
    let r = Rect::new(-10, -10, 20, 20);
    assert!(r.contains_point(0, 0));
    assert!(r.contains_point(-10, -10));
    assert!(!r.contains_point(10, 0));
}

#[test]
fn shrink_wider_surface_pins_width() {
    // width ratio 2, height ratio 0.5: the width is pinned, the height
    // scales by the same factor
    let r = constrain_rect(1600, 300, 800, 600);
    assert_eq!((r.x, r.y), (0, 0));
    assert_eq!((r.width, r.height), (800, 150));
}

#[test]
fn shrink_taller_surface_pins_height() {
    let r = constrain_rect(300, 1600, 800, 400);
    assert_eq!((r.width, r.height), (75, 400));
}

#[test]
fn shrink_result_fits_and_keeps_aspect() {
    let r = constrain_rect(200, 100, 100, 100);
    assert!(r.width <= 100 && r.height <= 100);
    assert_eq!((r.width, r.height), (100, 50));
    assert_eq!(r.width * 100, r.height * 200);
}

#[test]
fn smaller_surface_is_left_unscaled() {
    let r = constrain_rect(20, 10, 100, 100);
    assert_eq!((r.width, r.height), (20, 10));
}

#[test]
fn exact_fit_is_left_unscaled() {
    let r = constrain_rect(100, 100, 100, 100);
    assert_eq!((r.width, r.height), (100, 100));
}

#[test]
fn zero_clip_dimension_means_no_scaling() {
    let r = constrain_rect(20, 10, 0, 50);
    assert_eq!((r.width, r.height), (20, 10));
    let r = constrain_rect(20, 10, 50, 0);
    assert_eq!((r.width, r.height), (20, 10));
}

#[test]
fn center_alignment_offsets() {
    // a 20-wide rectangle in a 100-wide clip: centering shifts it by 40
    assert_eq!(centered_coord(0, 100, 20), 40);
    assert_eq!(centered_coord(5, 100, 20), 45);
}

#[test]
fn right_alignment_offsets() {
    // right alignment puts the trailing edge on the clip's right edge
    assert_eq!(end_aligned_coord(0, 100, 20), 80);
    assert_eq!(end_aligned_coord(5, 100, 20), 85);
}

#[test]
fn alignment_with_oversized_span() {
    assert_eq!(centered_coord(0, 100, 120), -10);
    assert_eq!(end_aligned_coord(0, 100, 120), -20);
}

#[test]
fn decimal_of_unsigned() {
    assert_eq!(u64_to_decimal(0), "0");
    assert_eq!(u64_to_decimal(7), "7");
    assert_eq!(u64_to_decimal(1234567890), "1234567890");
    assert_eq!(u64_to_decimal(u64::MAX), "18446744073709551615");
}

#[test]
fn decimal_of_signed() {
    assert_eq!(i64_to_decimal(0), "0");
    assert_eq!(i64_to_decimal(-1), "-1");
    assert_eq!(i64_to_decimal(-42), "-42");
    assert_eq!(i64_to_decimal(42), "42");
    assert_eq!(i64_to_decimal(i64::MIN), "-9223372036854775808");
    assert_eq!(i64_to_decimal(i64::MAX), "9223372036854775807");
}
