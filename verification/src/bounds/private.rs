use vstd::prelude::*;

use crate::bounds::SliceRange;
use crate::util::Bound;

verus! {

/// Restricts [`SliceBounds`](crate::bounds::SliceBounds) to the bound types
/// of this crate and of `core::ops`.
pub trait Sealed {
}

impl Sealed for SliceRange {
}

impl Sealed for core::ops::Range<usize> {
}

impl Sealed for core::ops::RangeTo<usize> {
}

impl Sealed for core::ops::RangeToInclusive<usize> {
}

impl Sealed for core::ops::RangeFrom<usize> {
}

impl Sealed for core::ops::RangeFull {
}

impl Sealed for (Bound<usize>, Bound<usize>) {
}

} // verus!
