//! Arithmetic over closed integer intervals.
//!
//! Any half-open, fully open, or one-sided range over a discrete integer
//! element type is normalized into a canonical closed interval `[lo, hi]`
//! (inclusive on both ends), using the element type's extremal values and
//! its successor / predecessor. On top of the canonical form the library
//! offers membership, overlap, intersection, and set-difference, each with
//! a proved contract.

pub mod laws;
pub mod num;
pub mod ranges;
pub mod shapes;

pub use num::BasicNum;
pub use ranges::RangeUtil;
