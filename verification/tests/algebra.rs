use std::ops::RangeFull;

use range_util::ranges::intersection;
use range_util::ranges::setminus;
use range_util::RangeUtil;

#[test]
fn test_intersection_range_inclusive() {
    assert_eq!(intersection(&(0..=3), &(1..=2)), Some(1..=2));
    assert_eq!(intersection(&(0..=3), &(1..=30)), Some(1..=3));
    assert_eq!(intersection(&(0..=3), &(-10..1)), Some(0..=0));
    assert_eq!(intersection(&(0..=3), &(-10..=1)), Some(0..=1));
    assert_eq!(intersection(&(0..=3), &(-10..=-1)), None);
    assert_eq!(intersection(&(0..=3), &(4..=10)), None);
}

#[test]
fn test_difference_range_inclusive() {
    assert_eq!(setminus(&(0..=3), &(4..=100)), (Some(0..=3), None));
    assert_eq!(setminus(&(0..=3), &(-100..=-1)), (Some(0..=3), None));
    assert_eq!(setminus(&(0..=3), &(1..=2)), (Some(0..=0), Some(3..=3)));
    assert_eq!(setminus(&(0..=3), &(0..=2)), (None, Some(3..=3)));
    assert_eq!(setminus(&(0..=3), &(1..=3)), (Some(0..=0), None));
}

#[test]
fn test_from_incl() {
    assert_eq!((0..).starts_at(), 0);
    assert_eq!((0..1).starts_at(), 0);
    assert_eq!((0..=1).starts_at(), 0);
    assert_eq!((..=10).starts_at(), 0usize);
    assert_eq!((..=10).starts_at(), isize::MIN);
    assert_eq!(RangeUtil::<usize>::starts_at(&RangeFull), 0);
    assert_eq!(RangeUtil::<isize>::starts_at(&RangeFull), isize::MIN);
}

#[test]
fn test_to_incl() {
    assert_eq!((0..).ends_at(), usize::MAX);
    assert_eq!((0..1).ends_at(), 0);
    assert_eq!((0..=1).ends_at(), 1);
    assert_eq!((..=10).ends_at(), 10);
    assert_eq!((10..).ends_at(), isize::MAX);
    assert_eq!(RangeUtil::<usize>::ends_at(&RangeFull), usize::MAX);
    assert_eq!(RangeUtil::<isize>::ends_at(&RangeFull), isize::MAX);
}
