//! Bindings of the built-in range shapes onto the interval algebra: every
//! std range over a supported element type canonicalizes into a closed
//! interval and so carries the whole algebra.

use vstd::prelude::*;
use crate::num::BasicNum;
use crate::ranges::RangeUtil;
use core::ops::Bound;
use core::ops::Range;
use core::ops::RangeFrom;
use core::ops::RangeFull;
use core::ops::RangeInclusive;
use core::ops::RangeTo;
use core::ops::RangeToInclusive;

verus! {

/// Relies on core::ops::RangeFrom being a struct of the single public
/// field `start`, the range's inclusive lower bound.
#[verifier::external_type_specification]
#[verifier::reject_recursive_types(Idx)]
pub struct ExRangeFrom<Idx>(RangeFrom<Idx>);

/// Relies on core::ops::RangeTo being a struct of the single public
/// field `end`, the range's exclusive upper bound.
#[verifier::external_type_specification]
#[verifier::reject_recursive_types(Idx)]
pub struct ExRangeTo<Idx>(RangeTo<Idx>);

/// Relies on core::ops::RangeToInclusive being a struct of the single
/// public field `end`, the range's inclusive upper bound.
#[verifier::external_type_specification]
#[verifier::reject_recursive_types(Idx)]
pub struct ExRangeToInclusive<Idx>(RangeToInclusive<Idx>);

/// Relies on core::ops::RangeFull being a fieldless struct: the range
/// unbounded on both sides.
#[verifier::external_type_specification]
pub struct ExRangeFull(RangeFull);

/// Relies on core::ops::Bound being an enum of the three public variants
/// Included, Excluded and Unbounded, the endpoint descriptors of a range.
#[verifier::external_type_specification]
#[verifier::reject_recursive_types(T)]
pub struct ExBound<T>(Bound<T>);

/// Relies on core::ops::RangeInclusive::start: it returns the range's
/// inclusive lower bound, the value the range was created with.
pub assume_specification<Idx>[ RangeInclusive::<Idx>::start ](r: &RangeInclusive<Idx>) -> (ret:
    &Idx)
    ensures
        *ret == r@.start,
;

/// Relies on core::ops::RangeInclusive::end: it returns the range's
/// inclusive upper bound, the value the range was created with.
pub assume_specification<Idx>[ RangeInclusive::<Idx>::end ](r: &RangeInclusive<Idx>) -> (ret:
    &Idx)
    ensures
        *ret == r@.end,
;

impl<T: BasicNum> RangeUtil<T> for RangeInclusive<T> {
    open spec fn spec_start(&self) -> int {
        self@.start.as_int()
    }

    open spec fn spec_end(&self) -> int {
        self@.end.as_int()
    }

    open spec fn wf(&self) -> bool {
        true
    }

    proof fn lemma_endpoints_in_range(&self) {
        self@.start.lemma_in_range();
        self@.end.lemma_in_range();
    }

    fn starts_at(&self) -> T {
        *self.start()
    }

    fn ends_at(&self) -> T {
        *self.end()
    }
}

impl<T: BasicNum> RangeUtil<T> for Range<T> {
    open spec fn spec_start(&self) -> int {
        self.start.as_int()
    }

    open spec fn spec_end(&self) -> int {
        self.end.as_int() - 1
    }

    open spec fn wf(&self) -> bool {
        T::min_int() < self.end.as_int()
    }

    proof fn lemma_endpoints_in_range(&self) {
        self.start.lemma_in_range();
        self.end.lemma_in_range();
    }

    fn starts_at(&self) -> T {
        self.start
    }

    fn ends_at(&self) -> T {
        self.end.dec()
    }
}

impl<T: BasicNum> RangeUtil<T> for RangeFrom<T> {
    open spec fn spec_start(&self) -> int {
        self.start.as_int()
    }

    open spec fn spec_end(&self) -> int {
        T::max_int()
    }

    open spec fn wf(&self) -> bool {
        true
    }

    proof fn lemma_endpoints_in_range(&self) {
        self.start.lemma_in_range();
        T::lemma_zero_in_range();
    }

    fn starts_at(&self) -> T {
        self.start
    }

    fn ends_at(&self) -> T {
        T::max_value()
    }
}

impl<T: BasicNum> RangeUtil<T> for RangeTo<T> {
    open spec fn spec_start(&self) -> int {
        T::min_int()
    }

    open spec fn spec_end(&self) -> int {
        self.end.as_int() - 1
    }

    open spec fn wf(&self) -> bool {
        T::min_int() < self.end.as_int()
    }

    proof fn lemma_endpoints_in_range(&self) {
        self.end.lemma_in_range();
        T::lemma_zero_in_range();
    }

    fn starts_at(&self) -> T {
        T::min_value()
    }

    fn ends_at(&self) -> T {
        self.end.dec()
    }
}

impl<T: BasicNum> RangeUtil<T> for RangeToInclusive<T> {
    open spec fn spec_start(&self) -> int {
        T::min_int()
    }

    open spec fn spec_end(&self) -> int {
        self.end.as_int()
    }

    open spec fn wf(&self) -> bool {
        true
    }

    proof fn lemma_endpoints_in_range(&self) {
        self.end.lemma_in_range();
        T::lemma_zero_in_range();
    }

    fn starts_at(&self) -> T {
        T::min_value()
    }

    fn ends_at(&self) -> T {
        self.end
    }
}

impl<T: BasicNum> RangeUtil<T> for RangeFull {
    open spec fn spec_start(&self) -> int {
        T::min_int()
    }

    open spec fn spec_end(&self) -> int {
        T::max_int()
    }

    open spec fn wf(&self) -> bool {
        true
    }

    proof fn lemma_endpoints_in_range(&self) {
        T::lemma_zero_in_range();
    }

    fn starts_at(&self) -> T {
        T::min_value()
    }

    fn ends_at(&self) -> T {
        T::max_value()
    }
}

impl<T: BasicNum> RangeUtil<T> for (Bound<T>, Bound<T>) {
    open spec fn spec_start(&self) -> int {
        match self.0 {
            Bound::Included(v) => v.as_int(),
            Bound::Excluded(v) => v.as_int() + 1,
            Bound::Unbounded => T::min_int(),
        }
    }

    open spec fn spec_end(&self) -> int {
        match self.1 {
            Bound::Included(v) => v.as_int(),
            Bound::Excluded(v) => v.as_int() - 1,
            Bound::Unbounded => T::max_int(),
        }
    }

    open spec fn wf(&self) -> bool {
        &&& (self.0 matches Bound::Excluded(v) ==> v.as_int() < T::max_int())
        &&& (self.1 matches Bound::Excluded(v) ==> T::min_int() < v.as_int())
    }

    proof fn lemma_endpoints_in_range(&self) {
        T::lemma_zero_in_range();
        match self.0 {
            Bound::Included(v) => v.lemma_in_range(),
            Bound::Excluded(v) => v.lemma_in_range(),
            Bound::Unbounded => (),
        }
        match self.1 {
            Bound::Included(v) => v.lemma_in_range(),
            Bound::Excluded(v) => v.lemma_in_range(),
            Bound::Unbounded => (),
        }
    }

    fn starts_at(&self) -> T {
        match &self.0 {
            Bound::Included(v) => *v,
            Bound::Excluded(v) => v.inc(),
            Bound::Unbounded => T::min_value(),
        }
    }

    fn ends_at(&self) -> T {
        match &self.1 {
            Bound::Included(v) => *v,
            Bound::Excluded(v) => v.dec(),
            Bound::Unbounded => T::max_value(),
        }
    }
}

} // verus!
