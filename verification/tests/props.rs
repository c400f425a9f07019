use std::ops::Bound;
use std::ops::RangeFull;

use range_util::ranges::intersection;
use range_util::ranges::intersects;
use range_util::ranges::setminus;
use range_util::BasicNum;
use range_util::RangeUtil;

#[test]
fn canonicalize_is_idempotent() {
    let c = (0..5).canonicalize();
    assert_eq!(c, 0..=4);
    assert_eq!(c.starts_at(), (0..5).starts_at());
    assert_eq!(c.ends_at(), (0..5).ends_at());
    let d = c.canonicalize();
    assert_eq!(d, c);
}

#[test]
fn includes_own_endpoints() {
    let a = -3..=7;
    assert!(a.includes(&a.starts_at()));
    assert!(a.includes(&a.ends_at()));
    assert!(a.includes(&0));
    assert!(!a.includes(&-4));
    assert!(!a.includes(&8));
}

#[test]
fn intersects_is_symmetric() {
    assert!(intersects(&(0..=3), &(1..=4)));
    assert!(intersects(&(1..=4), &(0..=3)));
    assert!(intersects(&(0..=3), &(2..)));
    assert!(intersects(&(2..), &(0..=3)));
    assert!(!intersects(&(0..=3), &(4..)));
    assert!(!intersects(&(4..), &(0..=3)));
}

#[test]
fn intersection_is_symmetric() {
    assert_eq!(
        intersection(&(0..=3), &(1..=30)),
        intersection(&(1..=30), &(0..=3))
    );
    assert_eq!(
        intersection(&(0..=3), &(4..=10)),
        intersection(&(4..=10), &(0..=3))
    );
}

#[test]
fn intersection_is_idempotent() {
    let a = 2..=9;
    assert_eq!(intersection(&a, &a), Some(a));
}

#[test]
fn intersection_holds_common_elements() {
    let a = 0..=5;
    let b = 3..=9;
    let i = intersection(&a, &b).unwrap();
    for x in -1..=10 {
        assert_eq!(i.includes(&x), a.includes(&x) && b.includes(&x));
    }
}

#[test]
fn setminus_fragments_are_disjoint_and_ordered() {
    let (l, r) = setminus(&(0..=9), &(4..=5));
    let l = l.unwrap();
    let r = r.unwrap();
    assert!(l.ends_at() < r.starts_at());
    for x in 0..=9 {
        assert!(!(l.includes(&x) && r.includes(&x)));
    }
}

#[test]
fn setminus_partitions_the_left_operand() {
    let a = 0..=9;
    let b = 4..=5;
    let (l, r) = setminus(&a, &b);
    let l = l.unwrap();
    let r = r.unwrap();
    let i = intersection(&a, &b).unwrap();
    for x in 0..=9 {
        let hits =
            (l.includes(&x) as u32) + (r.includes(&x) as u32) + (i.includes(&x) as u32);
        assert_eq!(hits, 1);
    }
}

#[test]
fn setminus_of_self_is_empty() {
    let a = -2..=11;
    assert_eq!(setminus(&a, &a), (None, None));
}

#[test]
fn unbounded_bound_pair_reaches_the_extremes() {
    let pair: (Bound<i8>, Bound<i8>) = (Bound::Unbounded, Bound::Unbounded);
    assert_eq!(pair.starts_at(), i8::MIN);
    assert_eq!(pair.ends_at(), i8::MAX);
    assert_eq!(RangeUtil::<u16>::starts_at(&RangeFull), 0);
    assert_eq!(RangeUtil::<u16>::ends_at(&RangeFull), u16::MAX);
}

#[test]
fn excluded_bounds_are_tightened() {
    let pair = (Bound::Excluded(0), Bound::Included(5));
    assert_eq!(pair.starts_at(), 1);
    assert_eq!(pair.ends_at(), 5);
    let pair = (Bound::Included(0), Bound::Excluded(5));
    assert_eq!(pair.starts_at(), 0);
    assert_eq!(pair.ends_at(), 4);
}

#[test]
fn len_counts_the_elements() {
    assert_eq!(RangeUtil::len(&(0..=3)), Some(4));
    assert_eq!(RangeUtil::len(&(7..=7)), Some(1));
    assert_eq!(RangeUtil::len(&(3..3)), None);
    assert_eq!(RangeUtil::len(&(-2i64..=2)), Some(5));
}

#[test]
fn setminus_at_the_domain_floor() {
    assert_eq!(setminus(&(0u8..=3), &(0u8..=2)), (None, Some(3..=3)));
    assert_eq!(setminus(&(0u8..=3), &(..2u8)), (None, Some(2..=3)));
}

#[test]
fn setminus_at_the_domain_ceiling() {
    assert_eq!(
        setminus(&(250u8..=255), &(252u8..=255)),
        (Some(250..=251), None)
    );
    assert_eq!(setminus(&(250u8..=255), &(252u8..)), (Some(250..=251), None));
}

#[test]
fn setminus_splits_the_full_domain() {
    let (l, r) = setminus::<u8, _, _>(&(..), &(10..=20));
    assert_eq!(l, Some(0..=9));
    assert_eq!(r, Some(21..=255));
}

#[test]
fn empty_results_are_absent() {
    assert_eq!(intersection(&(0..=3), &(10..=20)), None);
    assert_eq!(setminus(&(5..=6), &(0..=100)), (None, None));
}

#[test]
fn empty_operands_flatten_to_absent() {
    assert_eq!(intersection(&(3..2), &(0..=10)), None);
    assert_eq!(intersection(&(0..=10), &(3..2)), None);
    assert_eq!(setminus(&(3..2), &(0..=10)), (None, None));
    assert_eq!(setminus(&(3..2), &(20..=30)), (None, None));
    assert_eq!(setminus(&(0..=10), &(3..2)), (Some(0..=10), None));
}

#[test]
fn inc_and_dec_invert_each_other() {
    assert_eq!(41u8.inc(), 42);
    assert_eq!(41u8.inc().dec(), 41);
    assert_eq!((-7i32).dec().inc(), -7);
    assert_eq!(<u8 as BasicNum>::min_value(), 0);
    assert_eq!(<u8 as BasicNum>::max_value(), 255);
}
