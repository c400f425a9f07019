//! The algebraic laws of the interval operations, proved once and for all
//! over the integer model that the operation contracts are stated in.

use vstd::prelude::*;
use core::ops::Bound;
use core::ops::RangeFrom;
use core::ops::RangeFull;
use core::ops::RangeInclusive;
use core::ops::RangeTo;
use core::ops::RangeToInclusive;
use crate::num::BasicNum;
use crate::ranges::in_interval;
use crate::ranges::intersection_spec;
use crate::ranges::overlap;
use crate::ranges::setminus_spec;
use crate::ranges::RangeUtil;

verus! {

/// Canonicalization is idempotent: a closed interval carrying the canonical
/// endpoints of a range — as `RangeUtil::canonicalize` returns — has those
/// same endpoints as its own canonical form.
pub proof fn lemma_canonicalize_idempotent<T: BasicNum, A: RangeUtil<T>>(
    a: &A,
    c: &RangeInclusive<T>,
)
    requires
        a.wf(),
        c@.start.as_int() == a.spec_start(),
        c@.end.as_int() == a.spec_end(),
    ensures
        c.wf(),
        c.spec_start() == a.spec_start(),
        c.spec_end() == a.spec_end(),
{
}

/// A non-empty range contains both of its canonical endpoints.
pub proof fn lemma_includes_endpoints<T: BasicNum, A: RangeUtil<T>>(a: &A)
    requires
        a.wf(),
        a.spec_start() <= a.spec_end(),
    ensures
        in_interval(a.spec_start(), a.spec_end(), a.spec_start()),
        in_interval(a.spec_start(), a.spec_end(), a.spec_end()),
{
}

/// The successor's predecessor is the element itself: with `y` the
/// successor of `x` and `z` the predecessor of `y`, `z` is `x` again.
pub proof fn lemma_dec_of_inc<T: BasicNum>(x: T, y: T, z: T)
    requires
        y.as_int() == x.as_int() + 1,
        z.as_int() == y.as_int() - 1,
    ensures
        z == x,
{
    z.lemma_injective(x);
}

/// The predecessor's successor is the element itself: with `y` the
/// predecessor of `x` and `z` the successor of `y`, `z` is `x` again.
pub proof fn lemma_inc_of_dec<T: BasicNum>(x: T, y: T, z: T)
    requires
        y.as_int() == x.as_int() - 1,
        z.as_int() == y.as_int() + 1,
    ensures
        z == x,
{
    z.lemma_injective(x);
}

/// Overlap is symmetric.
pub proof fn lemma_overlap_symmetric(a_lo: int, a_hi: int, b_lo: int, b_hi: int)
    ensures
        overlap(a_lo, a_hi, b_lo, b_hi) == overlap(b_lo, b_hi, a_lo, a_hi),
{
}

/// For non-empty operands the intersection is present exactly when the
/// operands overlap.
pub proof fn lemma_intersection_present_iff_overlap(a_lo: int, a_hi: int, b_lo: int, b_hi: int)
    requires
        a_lo <= a_hi,
        b_lo <= b_hi,
    ensures
        intersection_spec(a_lo, a_hi, b_lo, b_hi) is Some <==> overlap(a_lo, a_hi, b_lo, b_hi),
{
}

/// Intersection is symmetric: both operand orders give the same result.
pub proof fn lemma_intersection_symmetric(a_lo: int, a_hi: int, b_lo: int, b_hi: int)
    ensures
        intersection_spec(a_lo, a_hi, b_lo, b_hi) == intersection_spec(b_lo, b_hi, a_lo, a_hi),
{
}

/// Intersection is idempotent: a non-empty interval intersected with itself
/// is itself.
pub proof fn lemma_intersection_idempotent(lo: int, hi: int)
    requires
        lo <= hi,
    ensures
        intersection_spec(lo, hi, lo, hi) == Some((lo, hi)),
{
}

/// The intersection holds exactly the common elements: when present it
/// contains `x` iff both operands do, and when absent the operands share
/// no element.
pub proof fn lemma_intersection_membership(a_lo: int, a_hi: int, b_lo: int, b_hi: int, x: int)
    ensures
        intersection_spec(a_lo, a_hi, b_lo, b_hi) matches Some(p) ==> (in_interval(p.0, p.1, x)
            <==> in_interval(a_lo, a_hi, x) && in_interval(b_lo, b_hi, x)),
        intersection_spec(a_lo, a_hi, b_lo, b_hi) is None ==> !(in_interval(a_lo, a_hi, x)
            && in_interval(b_lo, b_hi, x)),
{
}

/// The two fragments of a set-difference of non-empty intervals, when both
/// are present, are ordered — the left one ends strictly below the right
/// one's start — and therefore share no element.
pub proof fn lemma_setminus_disjoint(a_lo: int, a_hi: int, b_lo: int, b_hi: int, x: int)
    requires
        a_lo <= a_hi,
        b_lo <= b_hi,
    ensures
        ({
            let m = setminus_spec(a_lo, a_hi, b_lo, b_hi);
            match (m.0, m.1) {
                (Some(l), Some(r)) => l.1 < r.0 && !(in_interval(l.0, l.1, x) && in_interval(
                    r.0,
                    r.1,
                    x,
                )),
                _ => true,
            }
        }),
{
}

/// Set-difference partitions the left operand: every element of `A` lies in
/// exactly one of the left fragment, the right fragment, and the
/// intersection of `A` and `B`.
pub proof fn lemma_setminus_partition(a_lo: int, a_hi: int, b_lo: int, b_hi: int, x: int)
    requires
        a_lo <= a_hi,
        b_lo <= b_hi,
        in_interval(a_lo, a_hi, x),
    ensures
        ({
            let m = setminus_spec(a_lo, a_hi, b_lo, b_hi);
            let i = intersection_spec(a_lo, a_hi, b_lo, b_hi);
            let in_left = m.0 matches Some(l) && in_interval(l.0, l.1, x);
            let in_right = m.1 matches Some(r) && in_interval(r.0, r.1, x);
            let in_both = i matches Some(p) && in_interval(p.0, p.1, x);
            &&& (in_left || in_right || in_both)
            &&& !(in_left && in_right)
            &&& !(in_left && in_both)
            &&& !(in_right && in_both)
        }),
{
}

/// Subtracting a non-empty interval from itself leaves nothing: both slots
/// come back absent.
pub proof fn lemma_setminus_self(lo: int, hi: int)
    requires
        lo <= hi,
    ensures
        setminus_spec(lo, hi, lo, hi) == (None::<(int, int)>, None::<(int, int)>),
{
}

/// An unbounded lower bound canonicalizes to the least element and an
/// unbounded upper bound to the greatest, on every shape that has one.
pub proof fn lemma_unbounded_extremes<T: BasicNum>(
    from: &RangeFrom<T>,
    to: &RangeTo<T>,
    to_incl: &RangeToInclusive<T>,
    full: &RangeFull,
    pair: &(Bound<T>, Bound<T>),
)
    ensures
        from.spec_end() == T::max_int(),
        to.spec_start() == T::min_int(),
        to_incl.spec_start() == T::min_int(),
        <RangeFull as RangeUtil<T>>::spec_start(full) == T::min_int(),
        <RangeFull as RangeUtil<T>>::spec_end(full) == T::max_int(),
        pair.0 is Unbounded ==> pair.spec_start() == T::min_int(),
        pair.1 is Unbounded ==> pair.spec_end() == T::max_int(),
{
}

} // verus!
