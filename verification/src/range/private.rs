use vstd::prelude::*;

use crate::range::IndexRange;
use crate::util::Bound;

verus! {

/// Restricts [`SliceRange`](crate::range::SliceRange) to the range types of
/// this crate and of `core::ops`.
pub trait Sealed {
}

impl Sealed for IndexRange {
}

impl Sealed for (Bound<usize>, Bound<usize>) {
}

impl Sealed for core::ops::Range<usize> {
}

impl Sealed for core::ops::RangeInclusive<usize> {
}

impl Sealed for core::ops::RangeTo<usize> {
}

impl Sealed for core::ops::RangeToInclusive<usize> {
}

impl Sealed for core::ops::RangeFrom<usize> {
}

impl Sealed for core::ops::RangeFull {
}

} // verus!
