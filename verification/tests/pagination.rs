//! Tests of the pagination cursor: inclusive distance, defaulted bounds,
//! and the result cap.

use chain_projection::pagination::{Cursor, Pagination};

#[test]
fn distance_of_a_point_to_itself_is_one() {
    assert_eq!(5i64.distance_between(&5), 1);
}

#[test]
fn distance_is_inclusive_and_symmetric_in_magnitude() {
    assert_eq!(0i64.distance_between(&9), 10);
    assert_eq!(9i64.distance_between(&0), 10);
}

#[test]
fn distance_covers_the_whole_cursor_range_without_panicking() {
    assert_eq!(0i64.distance_between(&i64::MAX), 1u64 << 63);
    assert_eq!(i64::MAX.distance_between(&0), 1u64 << 63);
    // Adversarial bounds wrap instead of overflowing.
    assert_eq!(i64::MIN.distance_between(&i64::MAX), 2);
    assert_eq!(i64::MAX.distance_between(&i64::MIN), 2);
    assert_eq!(i64::MIN.distance_between(&0), (1u64 << 63) + 1);
}

#[test]
fn absent_bounds_become_the_sentinels() {
    let p: Pagination<i64> = Pagination::new(None, None);
    assert_eq!(p.start, 0);
    assert_eq!(p.stop, i64::MAX);
    let p: Pagination<i64> = Pagination::new(Some(3), Some(17));
    assert_eq!(p.start, 3);
    assert_eq!(p.stop, 17);
}

#[test]
fn limit_never_exceeds_cap_or_span() {
    let p: Pagination<i64> = Pagination::new(Some(5), Some(14));
    assert_eq!(p.limit(100), 10);
    assert_eq!(p.limit(4), 4);
    assert_eq!(p.limit(10), 10);
    let whole: Pagination<i64> = Pagination::new(None, None);
    assert_eq!(whole.limit(20), 20);
    let point: Pagination<i64> = Pagination::new(Some(8), Some(8));
    assert_eq!(point.limit(20), 1);
}
