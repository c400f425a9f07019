//! The interval algebra: canonicalization into a closed interval, and the
//! membership, overlap, intersection and set-difference operations, each
//! specified against a model over the mathematical integers.

use vstd::prelude::*;
use crate::num::BasicNum;
use core::ops::RangeInclusive;

verus! {

/// `x` lies in the closed interval `[lo, hi]`. An empty interval
/// (`lo > hi`) contains nothing.
pub open spec fn in_interval(lo: int, hi: int, x: int) -> bool {
    lo <= x && x <= hi
}

/// The overlap test on the canonical endpoints of two intervals: neither
/// ends before the other starts. For non-empty intervals this holds exactly
/// when the two share an element.
pub open spec fn overlap(a_lo: int, a_hi: int, b_lo: int, b_hi: int) -> bool {
    a_hi >= b_lo && a_lo <= b_hi
}

/// The intersection of `[a_lo, a_hi]` and `[b_lo, b_hi]`: the pair of the
/// larger lower and the smaller upper endpoint, flattened to absent when
/// that pair is empty. For non-empty operands the pair is non-empty exactly
/// when the operands overlap; an empty result is never handed back as a
/// positive one.
pub open spec fn intersection_spec(a_lo: int, a_hi: int, b_lo: int, b_hi: int) -> Option<
    (int, int),
> {
    let lo = vstd::math::max(a_lo, b_lo);
    let hi = vstd::math::min(a_hi, b_hi);
    if lo <= hi {
        Some((lo, hi))
    } else {
        None
    }
}

/// The decomposition of `[a_lo, a_hi] \ [b_lo, b_hi]` into at most two
/// fragments. When the intersection is absent, the first interval comes
/// back whole in the left slot — flattened to absent when it is itself
/// empty. Otherwise, with `[c, d]` the intersection, the left fragment is
/// `[a_lo, c - 1]` and the right one `[d + 1, a_hi]`, each present only
/// when `c` (resp. `d`) lies in `[a_lo, a_hi]` and the fragment is
/// non-empty.
pub open spec fn setminus_spec(a_lo: int, a_hi: int, b_lo: int, b_hi: int) -> (
    Option<(int, int)>,
    Option<(int, int)>,
) {
    match intersection_spec(a_lo, a_hi, b_lo, b_hi) {
        None => if a_lo <= a_hi {
            (Some((a_lo, a_hi)), None)
        } else {
            (None, None)
        },
        Some((c, d)) => {
            let left = if a_lo < c && c <= a_hi {
                Some((a_lo, c - 1))
            } else {
                None
            };
            let right = if a_lo <= d && d < a_hi {
                Some((d + 1, a_hi))
            } else {
                None
            };
            (left, right)
        },
    }
}

/// Anything that presents itself as an interval over the element type `T`:
/// it canonicalizes into a closed interval `[spec_start, spec_end]` and
/// inherits the whole interval algebra.
///
/// A canonical interval with `spec_start > spec_end` is empty; an empty
/// interval is never handed back as a positive result — every operation
/// flattens it to an absent (`None`) slot.
pub trait RangeUtil<T: BasicNum>: Sized {
    /// The canonical inclusive lower endpoint, as a mathematical integer.
    spec fn spec_start(&self) -> int;

    /// The canonical inclusive upper endpoint, as a mathematical integer.
    spec fn spec_end(&self) -> int;

    /// Canonicalization stays inside the element domain: no bound asks for
    /// the successor of the greatest or the predecessor of the least element.
    spec fn wf(&self) -> bool;

    /// The canonical endpoints are element values.
    proof fn lemma_endpoints_in_range(&self)
        requires
            self.wf(),
        ensures
            T::min_int() <= self.spec_start() <= T::max_int(),
            T::min_int() <= self.spec_end() <= T::max_int(),
    ;

    /// The canonical inclusive lower endpoint.
    fn starts_at(&self) -> (r: T)
        requires
            self.wf(),
        ensures
            r.as_int() == self.spec_start(),
    ;

    /// The canonical inclusive upper endpoint.
    fn ends_at(&self) -> (r: T)
        requires
            self.wf(),
        ensures
            r.as_int() == self.spec_end(),
    ;

    /// The canonical closed interval of this range.
    fn canonicalize(&self) -> (r: RangeInclusive<T>)
        requires
            self.wf(),
        ensures
            r@.start.as_int() == self.spec_start(),
            r@.end.as_int() == self.spec_end(),
            !r@.exhausted,
    {
        RangeInclusive::new(self.starts_at(), self.ends_at())
    }

    /// The number of elements of the range, absent when the range is empty.
    fn len(&self) -> (r: Option<T>)
        requires
            self.wf(),
            self.spec_start() <= self.spec_end() ==> self.spec_end() - self.spec_start() + 1
                <= T::max_int(),
        ensures
            r is Some <==> self.spec_start() <= self.spec_end(),
            r matches Some(n) ==> n.as_int() == self.spec_end() - self.spec_start() + 1,
    {
        let s = self.starts_at();
        let e = self.ends_at();
        if s.le(&e) {
            proof {
                T::lemma_zero_in_range();
            }
            let d = e.minus(&s);
            Some(d.inc())
        } else {
            None
        }
    }

    /// Membership: true iff the canonical interval contains `x`.
    fn includes(&self, x: &T) -> (r: bool)
        requires
            self.wf(),
        ensures
            r <==> in_interval(self.spec_start(), self.spec_end(), x.as_int()),
    {
        self.starts_at().le(x) && x.le(&self.ends_at())
    }
}

/// The returned interval, when present, carries exactly the endpoints that
/// `intersection_spec` assigns, and it is present exactly when
/// `intersection_spec` says so.
pub open spec fn intersection_post<T: BasicNum>(
    a_lo: int,
    a_hi: int,
    b_lo: int,
    b_hi: int,
    r: Option<RangeInclusive<T>>,
) -> bool {
    let m = intersection_spec(a_lo, a_hi, b_lo, b_hi);
    &&& (r is Some <==> m is Some)
    &&& (r matches Some(i) ==> m matches Some(p) && i@.start.as_int() == p.0 && i@.end.as_int()
        == p.1 && !i@.exhausted)
}

/// Each returned fragment, when present, carries exactly the endpoints that
/// `setminus_spec` assigns to its slot, and each slot is filled exactly when
/// `setminus_spec` fills it.
pub open spec fn setminus_post<T: BasicNum>(
    a_lo: int,
    a_hi: int,
    b_lo: int,
    b_hi: int,
    r: (Option<RangeInclusive<T>>, Option<RangeInclusive<T>>),
) -> bool {
    let m = setminus_spec(a_lo, a_hi, b_lo, b_hi);
    &&& (r.0 is Some <==> m.0 is Some)
    &&& (r.1 is Some <==> m.1 is Some)
    &&& (r.0 matches Some(l) ==> m.0 matches Some(p) && l@.start.as_int() == p.0
        && l@.end.as_int() == p.1 && !l@.exhausted)
    &&& (r.1 matches Some(g) ==> m.1 matches Some(q) && g@.start.as_int() == q.0
        && g@.end.as_int() == q.1 && !g@.exhausted)
}

/// The overlap test on the two ranges' canonical endpoints: for non-empty
/// ranges, whether the two share at least one element.
pub fn intersects<T: BasicNum, A: RangeUtil<T>, B: RangeUtil<T>>(a: &A, b: &B) -> (r: bool)
    requires
        a.wf(),
        b.wf(),
    ensures
        r <==> overlap(a.spec_start(), a.spec_end(), b.spec_start(), b.spec_end()),
{
    b.starts_at().le(&a.ends_at()) && a.starts_at().le(&b.ends_at())
}

/// The intersection of two ranges, absent when they share no element.
pub fn intersection<T: BasicNum, A: RangeUtil<T>, B: RangeUtil<T>>(a: &A, b: &B) -> (r:
    Option<RangeInclusive<T>>)
    requires
        a.wf(),
        b.wf(),
    ensures
        intersection_post(a.spec_start(), a.spec_end(), b.spec_start(), b.spec_end(), r),
{
    let sa = a.starts_at();
    let sb = b.starts_at();
    let lo = if sa.le(&sb) {
        sb
    } else {
        sa
    };
    let ea = a.ends_at();
    let eb = b.ends_at();
    let hi = if ea.le(&eb) {
        ea
    } else {
        eb
    };
    if lo.le(&hi) {
        Some(RangeInclusive::new(lo, hi))
    } else {
        None
    }
}

/// The decomposition of `a \ b` into at most two disjoint closed intervals;
/// when both fragments are present the smaller-keyed one occupies the
/// first slot.
pub fn setminus<T: BasicNum, A: RangeUtil<T>, B: RangeUtil<T>>(a: &A, b: &B) -> (r: (
    Option<RangeInclusive<T>>,
    Option<RangeInclusive<T>>,
))
    requires
        a.wf(),
        b.wf(),
    ensures
        setminus_post(a.spec_start(), a.spec_end(), b.spec_start(), b.spec_end(), r),
{
    let isect = intersection(a, b);
    match isect {
        None => {
            let s = a.starts_at();
            let e = a.ends_at();
            if s.le(&e) {
                (Some(RangeInclusive::new(s, e)), None)
            } else {
                (None, None)
            }
        },
        Some(i) => {
            let lo = a.starts_at();
            let hi = a.ends_at();
            let c = *i.start();
            let d = *i.end();
            let left = if a.includes(&c) && !c.le(&lo) {
                proof {
                    lo.lemma_in_range();
                }
                Some(RangeInclusive::new(lo, c.dec()))
            } else {
                None
            };
            let right = if a.includes(&d) && !hi.le(&d) {
                proof {
                    hi.lemma_in_range();
                }
                Some(RangeInclusive::new(d.inc(), hi))
            } else {
                None
            };
            (left, right)
        },
    }
}

} // verus!
