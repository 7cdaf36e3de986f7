use vstd::prelude::*;

use crate::bounds::slice_range::{SliceRangeError, spec_try_from_bounds};
use crate::util::{
    Bound, bound_copied, bound_ref, range_inclusive_end, range_inclusive_start, spec_bound_copied,
};

/// The [`IndexRange`] type.
pub mod index;

/// Seals [`SliceRange`].
mod private;

pub use index::IndexRange;

verus! {

/// Types that act as ranges of indices into slices.
pub trait SliceRange: private::Sealed {
    /// The start bound that this range describes.
    spec fn spec_start_bound(&self) -> Bound<usize>;

    /// The end bound that this range describes.
    spec fn spec_end_bound(&self) -> Bound<usize>;

    /// Borrow the start and end bounds of the range.
    fn range_bounds(&self) -> (r: (Bound<&usize>, Bound<&usize>))
        ensures
            spec_bound_copied(r.0) == self.spec_start_bound(),
            spec_bound_copied(r.1) == self.spec_end_bound(),
    ;
}

impl SliceRange for IndexRange {
    open spec fn spec_start_bound(&self) -> Bound<usize> {
        Bound::Included(self.spec_start())
    }

    open spec fn spec_end_bound(&self) -> Bound<usize> {
        Bound::Excluded(self.spec_end())
    }

    fn range_bounds(&self) -> (r: (Bound<&usize>, Bound<&usize>)) {
        (Bound::Included(self.start_ref()), Bound::Excluded(self.end_ref()))
    }
}

impl SliceRange for (Bound<usize>, Bound<usize>) {
    open spec fn spec_start_bound(&self) -> Bound<usize> {
        self.0
    }

    open spec fn spec_end_bound(&self) -> Bound<usize> {
        self.1
    }

    fn range_bounds(&self) -> (r: (Bound<&usize>, Bound<&usize>)) {
        (bound_ref(&self.0), bound_ref(&self.1))
    }
}

impl SliceRange for core::ops::Range<usize> {
    open spec fn spec_start_bound(&self) -> Bound<usize> {
        Bound::Included(self.start)
    }

    open spec fn spec_end_bound(&self) -> Bound<usize> {
        Bound::Excluded(self.end)
    }

    fn range_bounds(&self) -> (r: (Bound<&usize>, Bound<&usize>)) {
        (Bound::Included(&self.start), Bound::Excluded(&self.end))
    }
}

impl SliceRange for core::ops::RangeInclusive<usize> {
    open spec fn spec_start_bound(&self) -> Bound<usize> {
        Bound::Included(self@.start)
    }

    open spec fn spec_end_bound(&self) -> Bound<usize> {
        Bound::Included(self@.end)
    }

    fn range_bounds(&self) -> (r: (Bound<&usize>, Bound<&usize>)) {
        (Bound::Included(range_inclusive_start(self)), Bound::Included(range_inclusive_end(self)))
    }
}

impl SliceRange for core::ops::RangeTo<usize> {
    open spec fn spec_start_bound(&self) -> Bound<usize> {
        Bound::Unbounded
    }

    open spec fn spec_end_bound(&self) -> Bound<usize> {
        Bound::Excluded(self.end)
    }

    fn range_bounds(&self) -> (r: (Bound<&usize>, Bound<&usize>)) {
        (Bound::Unbounded, Bound::Excluded(&self.end))
    }
}

impl SliceRange for core::ops::RangeToInclusive<usize> {
    open spec fn spec_start_bound(&self) -> Bound<usize> {
        Bound::Unbounded
    }

    open spec fn spec_end_bound(&self) -> Bound<usize> {
        Bound::Included(self.end)
    }

    fn range_bounds(&self) -> (r: (Bound<&usize>, Bound<&usize>)) {
        (Bound::Unbounded, Bound::Included(&self.end))
    }
}

impl SliceRange for core::ops::RangeFrom<usize> {
    open spec fn spec_start_bound(&self) -> Bound<usize> {
        Bound::Included(self.start)
    }

    open spec fn spec_end_bound(&self) -> Bound<usize> {
        Bound::Unbounded
    }

    fn range_bounds(&self) -> (r: (Bound<&usize>, Bound<&usize>)) {
        (Bound::Included(&self.start), Bound::Unbounded)
    }
}

impl SliceRange for core::ops::RangeFull {
    open spec fn spec_start_bound(&self) -> Bound<usize> {
        Bound::Unbounded
    }

    open spec fn spec_end_bound(&self) -> Bound<usize> {
        Bound::Unbounded
    }

    fn range_bounds(&self) -> (r: (Bound<&usize>, Bound<&usize>)) {
        (Bound::Unbounded, Bound::Unbounded)
    }
}

/// The outcome of turning `range` into an index range within `..len`:
/// the pair `(start, end)`, or the error that stops it.
pub open spec fn spec_into_range<R: SliceRange + ?Sized>(range: &R, len: usize) -> Result<
    (usize, usize),
    SliceRangeError,
> {
    spec_try_from_bounds(range.spec_start_bound(), range.spec_end_bound(), len)
}

/// Borrow the start and end bounds of a range.
pub fn as_bounds<R: SliceRange + ?Sized>(range: &R) -> (r: (Bound<&usize>, Bound<&usize>))
    ensures
        spec_bound_copied(r.0) == range.spec_start_bound(),
        spec_bound_copied(r.1) == range.spec_end_bound(),
{
    range.range_bounds()
}

/// Get the start and end bounds of a range, taking ownership of it.
pub fn into_bounds<R: SliceRange>(range: R) -> (r: (Bound<usize>, Bound<usize>))
    ensures
        r == (range.spec_start_bound(), range.spec_end_bound()),
{
    let (start, end) = as_bounds(&range);
    (bound_copied(start), bound_copied(end))
}

/// Convert `range` into an [`IndexRange`] within `bounds`; the caller
/// ensures that the conversion succeeds.
pub fn into_range<R: SliceRange>(range: R, bounds: core::ops::RangeTo<usize>) -> (r: IndexRange)
    requires
        spec_into_range(&range, bounds.end) is Ok,
    ensures
        spec_into_range(&range, bounds.end) == Ok::<(usize, usize), SliceRangeError>(
            (r.spec_start(), r.spec_end()),
        ),
{
    match into_index_range(&range, bounds.end) {
        Ok(r) => r,
        // The precondition rules this arm out.
        Err(_) => IndexRange::new_unchecked(0, 0),
    }
}

/// Convert `range` into an [`IndexRange`] if it lies within `bounds`.
///
/// Returns `None` if an index would overflow, if `start > end`, or if
/// `end > bounds.end`.
pub fn into_range_checked<R: SliceRange>(range: R, bounds: core::ops::RangeTo<usize>) -> (r: Option<
    IndexRange,
>)
    ensures
        r is Some <==> spec_into_range(&range, bounds.end) is Ok,
        r matches Some(ir) ==> spec_into_range(&range, bounds.end) == Ok::<
            (usize, usize),
            SliceRangeError,
        >((ir.spec_start(), ir.spec_end())),
{
    match into_index_range(&range, bounds.end) {
        Ok(r) => Some(r),
        Err(_) => None,
    }
}

/// Convert `range` into an [`IndexRange`] within `bounds` without a
/// run-time failure path; the caller ensures that the conversion succeeds.
pub fn into_range_unchecked<R: SliceRange>(range: R, bounds: core::ops::RangeTo<usize>) -> (r:
    IndexRange)
    requires
        spec_into_range(&range, bounds.end) is Ok,
    ensures
        spec_into_range(&range, bounds.end) == Ok::<(usize, usize), SliceRangeError>(
            (r.spec_start(), r.spec_end()),
        ),
{
    into_range(range, bounds)
}

/// Why a range could not be turned into an [`IndexRange`].
#[derive(Debug, Clone, Copy, PartialEq, Eq, Structural, PartialOrd, Ord, Hash)]
pub enum RangeError {
    /// The start index overflows.
    StartOverflow,
    /// The end index overflows.
    EndOverflow,
    /// The start is larger than the end.
    StartLarge,
    /// The end is larger than the length.
    EndLarge,
}

/// The [`RangeError`] that corresponds to a [`SliceRangeError`].
pub open spec fn spec_range_error(e: SliceRangeError) -> RangeError {
    match e {
        SliceRangeError::StartOverflow => RangeError::StartOverflow,
        SliceRangeError::EndOverflow => RangeError::EndOverflow,
        SliceRangeError::StartTooLarge { .. } => RangeError::StartLarge,
        SliceRangeError::EndTooLarge { .. } => RangeError::EndLarge,
    }
}

impl RangeError {
    /// The message that a failed conversion reports for this error.
    pub fn message(&self) -> (r: &'static str)
        ensures
            *self == RangeError::StartOverflow ==> r@ == "start overflow"@,
            *self == RangeError::EndOverflow ==> r@ == "end overflow"@,
            *self == RangeError::StartLarge ==> r@ == "start > end"@,
            *self == RangeError::EndLarge ==> r@ == "end > len"@,
    {
        match self {
            RangeError::StartOverflow => "start overflow",
            RangeError::EndOverflow => "end overflow",
            RangeError::StartLarge => "start > end",
            RangeError::EndLarge => "end > len",
        }
    }
}

/// Create an [`IndexRange`] within `..len` from the bounds of `range`.
fn into_index_range<R: SliceRange + ?Sized>(range: &R, len: usize) -> (r: Result<
    IndexRange,
    RangeError,
>)
    ensures
        match spec_into_range(range, len) {
            Ok((s, e)) => r matches Ok(ir) && ir.spec_start() == s && ir.spec_end() == e,
            Err(err) => r == Err::<IndexRange, RangeError>(spec_range_error(err)),
        },
{
    let (start, end) = range.range_bounds();
    let start = match start {
        Bound::Included(start) => *start,
        Bound::Excluded(start) => match start.checked_add(1) {
            Some(start) => start,
            None => return Err(RangeError::StartOverflow),
        },
        Bound::Unbounded => 0,
    };
    let end = match end {
        Bound::Included(end) => match end.checked_add(1) {
            Some(end) => end,
            None => return Err(RangeError::EndOverflow),
        },
        Bound::Excluded(end) => *end,
        Bound::Unbounded => len,
    };
    let range = match IndexRange::new(start, end) {
        Some(range) => range,
        None => return Err(RangeError::StartLarge),
    };
    if range.end() > len {
        return Err(RangeError::EndLarge);
    }
    Ok(range)
}

} // verus!
