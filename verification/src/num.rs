//! The element-type capability: discrete ordered numbers with extremes and
//! successor / predecessor, instantiated for every built-in integer width.

use vstd::prelude::*;

verus! {

/// A totally ordered discrete numeric type with inclusive domain extremes
/// and a successor / predecessor, modelled by an embedding into the
/// mathematical integers.
///
/// `inc` is defined only below the greatest element and `dec` only above
/// the least one; the interval algebra never calls them at the extremes.
pub trait BasicNum: Sized + Copy {
    /// The mathematical value of this element.
    spec fn as_int(self) -> int;

    /// The mathematical value of the least element.
    spec fn min_int() -> int;

    /// The mathematical value of the greatest element.
    spec fn max_int() -> int;

    /// Every element lies between the domain extremes.
    proof fn lemma_in_range(self)
        ensures
            Self::min_int() <= self.as_int() <= Self::max_int(),
    ;

    /// The embedding is injective: equal mathematical values mean equal elements.
    proof fn lemma_injective(self, other: Self)
        requires
            self.as_int() == other.as_int(),
        ensures
            self == other,
    ;

    /// Zero lies in the domain of every supported element type.
    proof fn lemma_zero_in_range()
        ensures
            Self::min_int() <= 0 <= Self::max_int(),
    ;

    /// The least element.
    fn min_value() -> (r: Self)
        ensures
            r.as_int() == Self::min_int(),
    ;

    /// The greatest element.
    fn max_value() -> (r: Self)
        ensures
            r.as_int() == Self::max_int(),
    ;

    /// The immediate successor of `self`.
    fn inc(&self) -> (r: Self)
        requires
            self.as_int() < Self::max_int(),
        ensures
            r.as_int() == self.as_int() + 1,
    ;

    /// The immediate predecessor of `self`.
    fn dec(&self) -> (r: Self)
        requires
            Self::min_int() < self.as_int(),
        ensures
            r.as_int() == self.as_int() - 1,
    ;

    /// Decides the total order.
    fn le(&self, other: &Self) -> (r: bool)
        ensures
            r <==> self.as_int() <= other.as_int(),
    ;

    /// The difference of two elements, when it is itself an element.
    fn minus(&self, other: &Self) -> (r: Self)
        requires
            Self::min_int() <= self.as_int() - other.as_int() <= Self::max_int(),
        ensures
            r.as_int() == self.as_int() - other.as_int(),
    ;
}

impl BasicNum for u8 {
    open spec fn as_int(self) -> int {
        self as int
    }

    open spec fn min_int() -> int {
        u8::MIN as int
    }

    open spec fn max_int() -> int {
        u8::MAX as int
    }

    proof fn lemma_in_range(self) {
    }

    proof fn lemma_injective(self, other: Self) {
    }

    proof fn lemma_zero_in_range() {
    }

    fn min_value() -> Self {
        u8::MIN
    }

    fn max_value() -> Self {
        u8::MAX
    }

    fn inc(&self) -> Self {
        *self + 1
    }

    fn dec(&self) -> Self {
        *self - 1
    }

    fn le(&self, other: &Self) -> bool {
        *self <= *other
    }

    fn minus(&self, other: &Self) -> Self {
        *self - *other
    }
}

impl BasicNum for i32 {
    open spec fn as_int(self) -> int {
        self as int
    }

    open spec fn min_int() -> int {
        i32::MIN as int
    }

    open spec fn max_int() -> int {
        i32::MAX as int
    }

    proof fn lemma_in_range(self) {
    }

    proof fn lemma_injective(self, other: Self) {
    }

    proof fn lemma_zero_in_range() {
    }

    fn min_value() -> Self {
        i32::MIN
    }

    fn max_value() -> Self {
        i32::MAX
    }

    fn inc(&self) -> Self {
        *self + 1
    }

    fn dec(&self) -> Self {
        *self - 1
    }

    fn le(&self, other: &Self) -> bool {
        *self <= *other
    }

    fn minus(&self, other: &Self) -> Self {
        *self - *other
    }
}

impl BasicNum for u16 {
    open spec fn as_int(self) -> int {
        self as int
    }

    open spec fn min_int() -> int {
        u16::MIN as int
    }

    open spec fn max_int() -> int {
        u16::MAX as int
    }

    proof fn lemma_in_range(self) {
    }

    proof fn lemma_injective(self, other: Self) {
    }

    proof fn lemma_zero_in_range() {
    }

    fn min_value() -> Self {
        u16::MIN
    }

    fn max_value() -> Self {
        u16::MAX
    }

    fn inc(&self) -> Self {
        *self + 1
    }

    fn dec(&self) -> Self {
        *self - 1
    }

    fn le(&self, other: &Self) -> bool {
        *self <= *other
    }

    fn minus(&self, other: &Self) -> Self {
        *self - *other
    }
}

impl BasicNum for u32 {
    open spec fn as_int(self) -> int {
        self as int
    }

    open spec fn min_int() -> int {
        u32::MIN as int
    }

    open spec fn max_int() -> int {
        u32::MAX as int
    }

    proof fn lemma_in_range(self) {
    }

    proof fn lemma_injective(self, other: Self) {
    }

    proof fn lemma_zero_in_range() {
    }

    fn min_value() -> Self {
        u32::MIN
    }

    fn max_value() -> Self {
        u32::MAX
    }

    fn inc(&self) -> Self {
        *self + 1
    }

    fn dec(&self) -> Self {
        *self - 1
    }

    fn le(&self, other: &Self) -> bool {
        *self <= *other
    }

    fn minus(&self, other: &Self) -> Self {
        *self - *other
    }
}

impl BasicNum for u64 {
    open spec fn as_int(self) -> int {
        self as int
    }

    open spec fn min_int() -> int {
        u64::MIN as int
    }

    open spec fn max_int() -> int {
        u64::MAX as int
    }

    proof fn lemma_in_range(self) {
    }

    proof fn lemma_injective(self, other: Self) {
    }

    proof fn lemma_zero_in_range() {
    }

    fn min_value() -> Self {
        u64::MIN
    }

    fn max_value() -> Self {
        u64::MAX
    }

    fn inc(&self) -> Self {
        *self + 1
    }

    fn dec(&self) -> Self {
        *self - 1
    }

    fn le(&self, other: &Self) -> bool {
        *self <= *other
    }

    fn minus(&self, other: &Self) -> Self {
        *self - *other
    }
}

impl BasicNum for u128 {
    open spec fn as_int(self) -> int {
        self as int
    }

    open spec fn min_int() -> int {
        u128::MIN as int
    }

    open spec fn max_int() -> int {
        u128::MAX as int
    }

    proof fn lemma_in_range(self) {
    }

    proof fn lemma_injective(self, other: Self) {
    }

    proof fn lemma_zero_in_range() {
    }

    fn min_value() -> Self {
        u128::MIN
    }

    fn max_value() -> Self {
        u128::MAX
    }

    fn inc(&self) -> Self {
        *self + 1
    }

    fn dec(&self) -> Self {
        *self - 1
    }

    fn le(&self, other: &Self) -> bool {
        *self <= *other
    }

    fn minus(&self, other: &Self) -> Self {
        *self - *other
    }
}

impl BasicNum for usize {
    open spec fn as_int(self) -> int {
        self as int
    }

    open spec fn min_int() -> int {
        usize::MIN as int
    }

    open spec fn max_int() -> int {
        usize::MAX as int
    }

    proof fn lemma_in_range(self) {
    }

    proof fn lemma_injective(self, other: Self) {
    }

    proof fn lemma_zero_in_range() {
    }

    fn min_value() -> Self {
        usize::MIN
    }

    fn max_value() -> Self {
        usize::MAX
    }

    fn inc(&self) -> Self {
        *self + 1
    }

    fn dec(&self) -> Self {
        *self - 1
    }

    fn le(&self, other: &Self) -> bool {
        *self <= *other
    }

    fn minus(&self, other: &Self) -> Self {
        *self - *other
    }
}

impl BasicNum for i8 {
    open spec fn as_int(self) -> int {
        self as int
    }

    open spec fn min_int() -> int {
        i8::MIN as int
    }

    open spec fn max_int() -> int {
        i8::MAX as int
    }

    proof fn lemma_in_range(self) {
    }

    proof fn lemma_injective(self, other: Self) {
    }

    proof fn lemma_zero_in_range() {
    }

    fn min_value() -> Self {
        i8::MIN
    }

    fn max_value() -> Self {
        i8::MAX
    }

    fn inc(&self) -> Self {
        *self + 1
    }

    fn dec(&self) -> Self {
        *self - 1
    }

    fn le(&self, other: &Self) -> bool {
        *self <= *other
    }

    fn minus(&self, other: &Self) -> Self {
        *self - *other
    }
}

impl BasicNum for i16 {
    open spec fn as_int(self) -> int {
        self as int
    }

    open spec fn min_int() -> int {
        i16::MIN as int
    }

    open spec fn max_int() -> int {
        i16::MAX as int
    }

    proof fn lemma_in_range(self) {
    }

    proof fn lemma_injective(self, other: Self) {
    }

    proof fn lemma_zero_in_range() {
    }

    fn min_value() -> Self {
        i16::MIN
    }

    fn max_value() -> Self {
        i16::MAX
    }

    fn inc(&self) -> Self {
        *self + 1
    }

    fn dec(&self) -> Self {
        *self - 1
    }

    fn le(&self, other: &Self) -> bool {
        *self <= *other
    }

    fn minus(&self, other: &Self) -> Self {
        *self - *other
    }
}

impl BasicNum for i64 {
    open spec fn as_int(self) -> int {
        self as int
    }

    open spec fn min_int() -> int {
        i64::MIN as int
    }

    open spec fn max_int() -> int {
        i64::MAX as int
    }

    proof fn lemma_in_range(self) {
    }

    proof fn lemma_injective(self, other: Self) {
    }

    proof fn lemma_zero_in_range() {
    }

    fn min_value() -> Self {
        i64::MIN
    }

    fn max_value() -> Self {
        i64::MAX
    }

    fn inc(&self) -> Self {
        *self + 1
    }

    fn dec(&self) -> Self {
        *self - 1
    }

    fn le(&self, other: &Self) -> bool {
        *self <= *other
    }

    fn minus(&self, other: &Self) -> Self {
        *self - *other
    }
}

impl BasicNum for i128 {
    open spec fn as_int(self) -> int {
        self as int
    }

    open spec fn min_int() -> int {
        i128::MIN as int
    }

    open spec fn max_int() -> int {
        i128::MAX as int
    }

    proof fn lemma_in_range(self) {
    }

    proof fn lemma_injective(self, other: Self) {
    }

    proof fn lemma_zero_in_range() {
    }

    fn min_value() -> Self {
        i128::MIN
    }

    fn max_value() -> Self {
        i128::MAX
    }

    fn inc(&self) -> Self {
        *self + 1
    }

    fn dec(&self) -> Self {
        *self - 1
    }

    fn le(&self, other: &Self) -> bool {
        *self <= *other
    }

    fn minus(&self, other: &Self) -> Self {
        *self - *other
    }
}

impl BasicNum for isize {
    open spec fn as_int(self) -> int {
        self as int
    }

    open spec fn min_int() -> int {
        isize::MIN as int
    }

    open spec fn max_int() -> int {
        isize::MAX as int
    }

    proof fn lemma_in_range(self) {
    }

    proof fn lemma_injective(self, other: Self) {
    }

    proof fn lemma_zero_in_range() {
    }

    fn min_value() -> Self {
        isize::MIN
    }

    fn max_value() -> Self {
        isize::MAX
    }

    fn inc(&self) -> Self {
        *self + 1
    }

    fn dec(&self) -> Self {
        *self - 1
    }

    fn le(&self, other: &Self) -> bool {
        *self <= *other
    }

    fn minus(&self, other: &Self) -> Self {
        *self - *other
    }
}

} // verus!
