use vstd::prelude::*;

use crate::util::{Bound, bound_copied, bound_ref, spec_bound_copied};

/// Seals [`SliceBounds`].
mod private;

/// The [`SliceRange`] type and its error.
pub mod slice_range;

pub use slice_range::{SliceRange, SliceRangeError};

verus! {

/// Types that describe a range of slice indices by a start and an end bound.
pub trait SliceBounds: private::Sealed {
    /// The start bound that this value describes.
    spec fn spec_start_bound(&self) -> Bound<usize>;

    /// The end bound that this value describes.
    spec fn spec_end_bound(&self) -> Bound<usize>;

    /// Borrow the start and end bounds as a tuple.
    fn as_bounds(&self) -> (r: (Bound<&usize>, Bound<&usize>))
        ensures
            spec_bound_copied(r.0) == self.spec_start_bound(),
            spec_bound_copied(r.1) == self.spec_end_bound(),
    ;

    /// Get the start and end bounds as a tuple.
    fn to_bounds(&self) -> (r: (Bound<usize>, Bound<usize>))
        ensures
            r == (self.spec_start_bound(), self.spec_end_bound()),
    {
        let (start, end) = self.as_bounds();
        (bound_copied(start), bound_copied(end))
    }

    /// Get the start and end bounds as a tuple, taking ownership of `self`.
    fn into_bounds(self) -> (r: (Bound<usize>, Bound<usize>))
        where Self: Sized
        ensures
            r == (self.spec_start_bound(), self.spec_end_bound()),
    {
        self.to_bounds()
    }
}

/// Borrow the start and end bounds as a tuple.
pub fn as_bounds<B: SliceBounds + ?Sized>(bounds: &B) -> (r: (Bound<&usize>, Bound<&usize>))
    ensures
        spec_bound_copied(r.0) == bounds.spec_start_bound(),
        spec_bound_copied(r.1) == bounds.spec_end_bound(),
{
    bounds.as_bounds()
}

/// Get the start and end bounds as a tuple.
pub fn to_bounds<B: SliceBounds + ?Sized>(bounds: &B) -> (r: (Bound<usize>, Bound<usize>))
    ensures
        r == (bounds.spec_start_bound(), bounds.spec_end_bound()),
{
    bounds.to_bounds()
}

/// Get the start and end bounds as a tuple, taking ownership of `bounds`.
pub fn into_bounds<B: SliceBounds>(bounds: B) -> (r: (Bound<usize>, Bound<usize>))
    ensures
        r == (bounds.spec_start_bound(), bounds.spec_end_bound()),
{
    bounds.into_bounds()
}

impl SliceBounds for core::ops::Range<usize> {
    open spec fn spec_start_bound(&self) -> Bound<usize> {
        Bound::Included(self.start)
    }

    open spec fn spec_end_bound(&self) -> Bound<usize> {
        Bound::Excluded(self.end)
    }

    fn as_bounds(&self) -> (r: (Bound<&usize>, Bound<&usize>)) {
        (Bound::Included(&self.start), Bound::Excluded(&self.end))
    }
}

impl SliceBounds for core::ops::RangeTo<usize> {
    open spec fn spec_start_bound(&self) -> Bound<usize> {
        Bound::Unbounded
    }

    open spec fn spec_end_bound(&self) -> Bound<usize> {
        Bound::Excluded(self.end)
    }

    fn as_bounds(&self) -> (r: (Bound<&usize>, Bound<&usize>)) {
        (Bound::Unbounded, Bound::Excluded(&self.end))
    }
}

impl SliceBounds for core::ops::RangeToInclusive<usize> {
    open spec fn spec_start_bound(&self) -> Bound<usize> {
        Bound::Unbounded
    }

    open spec fn spec_end_bound(&self) -> Bound<usize> {
        Bound::Included(self.end)
    }

    fn as_bounds(&self) -> (r: (Bound<&usize>, Bound<&usize>)) {
        (Bound::Unbounded, Bound::Included(&self.end))
    }
}

impl SliceBounds for core::ops::RangeFrom<usize> {
    open spec fn spec_start_bound(&self) -> Bound<usize> {
        Bound::Included(self.start)
    }

    open spec fn spec_end_bound(&self) -> Bound<usize> {
        Bound::Unbounded
    }

    fn as_bounds(&self) -> (r: (Bound<&usize>, Bound<&usize>)) {
        (Bound::Included(&self.start), Bound::Unbounded)
    }
}

impl SliceBounds for core::ops::RangeFull {
    open spec fn spec_start_bound(&self) -> Bound<usize> {
        Bound::Unbounded
    }

    open spec fn spec_end_bound(&self) -> Bound<usize> {
        Bound::Unbounded
    }

    fn as_bounds(&self) -> (r: (Bound<&usize>, Bound<&usize>)) {
        (Bound::Unbounded, Bound::Unbounded)
    }
}

impl SliceBounds for (Bound<usize>, Bound<usize>) {
    open spec fn spec_start_bound(&self) -> Bound<usize> {
        self.0
    }

    open spec fn spec_end_bound(&self) -> Bound<usize> {
        self.1
    }

    fn as_bounds(&self) -> (r: (Bound<&usize>, Bound<&usize>)) {
        (bound_ref(&self.0), bound_ref(&self.1))
    }
}

} // verus!
