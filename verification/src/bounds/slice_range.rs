use vstd::prelude::*;

use crate::bounds::SliceBounds;
use crate::util::{
    Bound, bound_ref, decimal_string, range_inclusive_end_bound, range_inclusive_start,
    spec_bound_copied, spec_decimal, spec_inclusive_end_bound,
};
use vstd::string::StringExecFns;

verus! {

/// A `start..end` range where `start <= end` always holds.
///
/// It contains every `x` with `start <= x < end`, and it is empty
/// exactly when `start == end`.
#[derive(Debug, Clone, Copy, PartialEq, Eq, Structural, Hash)]
pub struct SliceRange {
    start: usize,
    end: usize,
}

/// An error that occurs when building a [`SliceRange`] fails.
#[derive(Debug, Clone, Copy, PartialEq, Eq, Structural, Hash)]
pub enum SliceRangeError {
    /// The range's start index would be greater than `usize::MAX`.
    StartOverflow,
    /// The range's end index would be greater than `usize::MAX`.
    EndOverflow,
    /// The range's start index is greater than its end index.
    StartTooLarge {
        /// The problematic start index (never zero).
        start: usize,
        /// The end index that the start index is greater than.
        end: usize,
    },
    /// The range's end index is greater than the slice length.
    EndTooLarge {
        /// The problematic end index (never zero).
        end: usize,
        /// The slice length that the end index is greater than.
        len: usize,
    },
}

impl SliceRangeError {
    /// The message with which a failed conversion panics.
    pub fn message(&self) -> (r: &'static str)
        ensures
            *self is StartOverflow ==> r@ == "range start would overflow"@,
            *self is EndOverflow ==> r@ == "range end would overflow"@,
            *self is StartTooLarge ==> r@ == "range start is greater than end"@,
            *self is EndTooLarge ==> r@ == "range end is greater than slice length"@,
    {
        match self {
            SliceRangeError::StartOverflow => "range start would overflow",
            SliceRangeError::EndOverflow => "range end would overflow",
            SliceRangeError::StartTooLarge { .. } => "range start is greater than end",
            SliceRangeError::EndTooLarge { .. } => "range end is greater than slice length",
        }
    }

    /// The text that describes this error, with the indices it holds.
    pub open spec fn spec_to_string(self) -> Seq<char> {
        match self {
            SliceRangeError::StartOverflow => "range start would overflow"@,
            SliceRangeError::EndOverflow => "range end would overflow"@,
            SliceRangeError::StartTooLarge { start, end } => "range start "@ + spec_decimal(
                start as int,
            ) + " is greater than end "@ + spec_decimal(end as int),
            SliceRangeError::EndTooLarge { end, len } => "range end "@ + spec_decimal(end as int)
                + " is greater than slice length "@ + spec_decimal(len as int),
        }
    }

    /// Describes this error, with the indices it holds.
    pub fn to_string(&self) -> (r: String)
        ensures
            r@ == self.spec_to_string(),
    {
        match self {
            SliceRangeError::StartOverflow => "range start would overflow".to_owned(),
            SliceRangeError::EndOverflow => "range end would overflow".to_owned(),
            SliceRangeError::StartTooLarge { start, end } => {
                let mut text = "range start ".to_owned();
                text.append(decimal_string(*start as i128).as_str());
                text.append(" is greater than end ");
                text.append(decimal_string(*end as i128).as_str());
                text
            },
            SliceRangeError::EndTooLarge { end, len } => {
                let mut text = "range end ".to_owned();
                text.append(decimal_string(*end as i128).as_str());
                text.append(" is greater than slice length ");
                text.append(decimal_string(*len as i128).as_str());
                text
            },
        }
    }
}

/// The first index that a start bound admits, or `None` when it would overflow.
pub open spec fn spec_start_index(bound: Bound<usize>) -> Option<usize> {
    match bound {
        Bound::Included(s) => Some(s),
        Bound::Excluded(s) => if s < usize::MAX {
            Some((s + 1) as usize)
        } else {
            None
        },
        Bound::Unbounded => Some(0),
    }
}

/// The index one past the last index that an end bound admits, or `None`
/// when it would overflow. An absent end bound stands for `len`.
pub open spec fn spec_end_index(bound: Bound<usize>, len: usize) -> Option<usize> {
    match bound {
        Bound::Included(e) => if e < usize::MAX {
            Some((e + 1) as usize)
        } else {
            None
        },
        Bound::Excluded(e) => Some(e),
        Bound::Unbounded => Some(len),
    }
}

/// The outcome of turning a pair of bounds into a `start..end` range within
/// a slice of length `len`: the pair `(start, end)` or the error, checked in
/// the order start overflow, end overflow, `start > end`, `end > len`.
pub open spec fn spec_try_from_bounds(start: Bound<usize>, end: Bound<usize>, len: usize) -> Result<
    (usize, usize),
    SliceRangeError,
> {
    match spec_start_index(start) {
        None => Err(SliceRangeError::StartOverflow),
        Some(s) => match spec_end_index(end, len) {
            None => Err(SliceRangeError::EndOverflow),
            Some(e) => if s > e {
                Err(SliceRangeError::StartTooLarge { start: s, end: e })
            } else if e > len {
                Err(SliceRangeError::EndTooLarge { end: e, len })
            } else {
                Ok((s, e))
            },
        },
    }
}

/// The `(start, end)` pair of a successful result, the error otherwise.
pub open spec fn spec_range_result(r: Result<SliceRange, SliceRangeError>) -> Result<
    (usize, usize),
    SliceRangeError,
> {
    match r {
        Ok(range) => Ok((range.spec_start(), range.spec_end())),
        Err(e) => Err(e),
    }
}

impl SliceRange {
    #[verifier::type_invariant]
    spec fn ordered(self) -> bool {
        self.start <= self.end
    }

    /// The start of the range.
    pub closed spec fn spec_start(self) -> usize {
        self.start
    }

    /// The end of the range.
    pub closed spec fn spec_end(self) -> usize {
        self.end
    }

    /// Attempt to create a new [`SliceRange`] from `start..end`.
    ///
    /// Returns an error if `start > end`.
    pub fn try_new(start: usize, end: usize) -> (r: Result<SliceRange, SliceRangeError>)
        ensures
            r is Ok <==> start <= end,
            r matches Ok(range) ==> range.spec_start() == start && range.spec_end() == end,
            r is Err ==> r == Err::<SliceRange, SliceRangeError>(
                SliceRangeError::StartTooLarge { start, end },
            ),
    {
        if start > end {
            Err(SliceRangeError::StartTooLarge { start, end })
        } else {
            Ok(SliceRange { start, end })
        }
    }

    /// Create a new [`SliceRange`] from `start..end`; the caller ensures `start <= end`.
    pub fn new(start: usize, end: usize) -> (r: SliceRange)
        requires
            start <= end,
        ensures
            r.spec_start() == start,
            r.spec_end() == end,
    {
        match SliceRange::try_new(start, end) {
            Ok(range) => range,
            // The precondition rules this arm out.
            Err(_) => SliceRange { start: 0, end: 0 },
        }
    }

    /// Create a new [`SliceRange`] from `start..end` without a run-time check.
    pub fn new_unchecked(start: usize, end: usize) -> (r: SliceRange)
        requires
            start <= end,
        ensures
            r.spec_start() == start,
            r.spec_end() == end,
    {
        SliceRange { start, end }
    }

    /// Create a new [`SliceRange`] from `0..end`.
    pub fn up_to(end: usize) -> (r: SliceRange)
        ensures
            r.spec_start() == 0,
            r.spec_end() == end,
    {
        SliceRange::new(0, end)
    }

    /// States that the start of a [`SliceRange`] never exceeds its end.
    pub fn compiler_hints(&self)
        ensures
            self.spec_start() <= self.spec_end(),
    {
        proof {
            use_type_invariant(self);
        }
    }

    /// Get the length of the range.
    pub fn len(&self) -> (r: usize)
        ensures
            r == self.spec_end() - self.spec_start(),
    {
        proof {
            use_type_invariant(self);
        }
        self.end - self.start
    }

    /// Get the start of the range.
    pub fn start(&self) -> (r: usize)
        ensures
            r == self.spec_start(),
            r <= self.spec_end(),
    {
        proof {
            use_type_invariant(self);
        }
        self.start
    }

    /// Get the end of the range.
    pub fn end(&self) -> (r: usize)
        ensures
            r == self.spec_end(),
            self.spec_start() <= r,
    {
        proof {
            use_type_invariant(self);
        }
        self.end
    }

    /// Get a reference to the start of the range.
    pub fn start_ref(&self) -> (r: &usize)
        ensures
            *r == self.spec_start(),
            *r <= self.spec_end(),
    {
        proof {
            use_type_invariant(self);
        }
        &self.start
    }

    /// Get a reference to the end of the range.
    pub fn end_ref(&self) -> (r: &usize)
        ensures
            *r == self.spec_end(),
            self.spec_start() <= *r,
    {
        proof {
            use_type_invariant(self);
        }
        &self.end
    }

    /// Attempt to create a new [`SliceRange`] within a slice of length `len`
    /// from something that implements [`SliceBounds`].
    ///
    /// Returns an error if the start or end index would overflow, if
    /// `start > end`, or if `end > len`.
    pub fn try_from_slice_bounds<B: SliceBounds + ?Sized>(bounds: &B, len: usize) -> (r: Result<
        SliceRange,
        SliceRangeError,
    >)
        ensures
            spec_range_result(r) == spec_try_from_bounds(
                bounds.spec_start_bound(),
                bounds.spec_end_bound(),
                len,
            ),
    {
        try_from_bounds(bounds.as_bounds(), len)
    }

    /// Attempt to create a new [`SliceRange`] within a slice of length `len`
    /// from the start and end bounds of some range.
    ///
    /// Returns an error if the start or end index would overflow, if
    /// `start > end`, or if `end > len`.
    pub fn try_from_range_bounds(
        start_bound: Bound<&usize>,
        end_bound: Bound<&usize>,
        len: usize,
    ) -> (r: Result<SliceRange, SliceRangeError>)
        ensures
            spec_range_result(r) == spec_try_from_bounds(
                spec_bound_copied(start_bound),
                spec_bound_copied(end_bound),
                len,
            ),
    {
        try_from_bounds((start_bound, end_bound), len)
    }

    /// Create a new [`SliceRange`] from something that implements
    /// [`SliceBounds`]; the caller ensures the bounds are valid for `len`.
    pub fn from_slice_bounds<B: SliceBounds + ?Sized>(bounds: &B, len: usize) -> (r: SliceRange)
        requires
            spec_try_from_bounds(bounds.spec_start_bound(), bounds.spec_end_bound(), len) is Ok,
        ensures
            Ok::<(usize, usize), SliceRangeError>((r.spec_start(), r.spec_end()))
                == spec_try_from_bounds(bounds.spec_start_bound(), bounds.spec_end_bound(), len),
    {
        match try_from_bounds(bounds.as_bounds(), len) {
            Ok(range) => range,
            // The precondition rules this arm out.
            Err(_) => SliceRange { start: 0, end: 0 },
        }
    }

    /// Create a new [`SliceRange`] from the start and end bounds of some
    /// range; the caller ensures the bounds are valid for `len`.
    pub fn from_range_bounds(start_bound: Bound<&usize>, end_bound: Bound<&usize>, len: usize) -> (r:
        SliceRange)
        requires
            spec_try_from_bounds(
                spec_bound_copied(start_bound),
                spec_bound_copied(end_bound),
                len,
            ) is Ok,
        ensures
            Ok::<(usize, usize), SliceRangeError>((r.spec_start(), r.spec_end()))
                == spec_try_from_bounds(
                spec_bound_copied(start_bound),
                spec_bound_copied(end_bound),
                len,
            ),
    {
        match try_from_bounds((start_bound, end_bound), len) {
            Ok(range) => range,
            // The precondition rules this arm out.
            Err(_) => SliceRange { start: 0, end: 0 },
        }
    }

    /// Create a new [`SliceRange`] from something that implements
    /// [`SliceBounds`] without a run-time failure path.
    pub fn from_slice_bounds_unchecked<B: SliceBounds + ?Sized>(bounds: &B, len: usize) -> (r:
        SliceRange)
        requires
            spec_try_from_bounds(bounds.spec_start_bound(), bounds.spec_end_bound(), len) is Ok,
        ensures
            Ok::<(usize, usize), SliceRangeError>((r.spec_start(), r.spec_end()))
                == spec_try_from_bounds(bounds.spec_start_bound(), bounds.spec_end_bound(), len),
    {
        SliceRange::from_slice_bounds(bounds, len)
    }

    /// Create a new [`SliceRange`] from the start and end bounds of some
    /// range without a run-time failure path.
    pub fn from_range_bounds_unchecked(
        start_bound: Bound<&usize>,
        end_bound: Bound<&usize>,
        len: usize,
    ) -> (r: SliceRange)
        requires
            spec_try_from_bounds(
                spec_bound_copied(start_bound),
                spec_bound_copied(end_bound),
                len,
            ) is Ok,
        ensures
            Ok::<(usize, usize), SliceRangeError>((r.spec_start(), r.spec_end()))
                == spec_try_from_bounds(
                spec_bound_copied(start_bound),
                spec_bound_copied(end_bound),
                len,
            ),
    {
        SliceRange::from_range_bounds(start_bound, end_bound, len)
    }

    /// The `start..end` range of standard library type with the same endpoints.
    pub fn to_range(&self) -> (r: core::ops::Range<usize>)
        ensures
            r.start == self.spec_start(),
            r.end == self.spec_end(),
            r.start <= r.end,
    {
        self.start()..self.end()
    }
}

/// Attempt to create a new [`SliceRange`] within a slice of length `len`
/// given the start and end bounds of some bounded type.
///
/// Returns an error if the start or end index would overflow, if
/// `start > end`, or if `end > len`.
fn try_from_bounds(bounds: (Bound<&usize>, Bound<&usize>), len: usize) -> (r: Result<
    SliceRange,
    SliceRangeError,
>)
    ensures
        spec_range_result(r) == spec_try_from_bounds(
            spec_bound_copied(bounds.0),
            spec_bound_copied(bounds.1),
            len,
        ),
{
    let (start, end) = bounds;
    let start = match start {
        Bound::Included(start) => *start,
        Bound::Excluded(start) => match start.checked_add(1) {
            Some(start) => start,
            None => return Err(SliceRangeError::StartOverflow),
        },
        Bound::Unbounded => 0,
    };
    let end = match end {
        Bound::Included(end) => match end.checked_add(1) {
            Some(end) => end,
            None => return Err(SliceRangeError::EndOverflow),
        },
        Bound::Excluded(end) => *end,
        Bound::Unbounded => len,
    };
    if start > end {
        Err(SliceRangeError::StartTooLarge { start, end })
    } else if end > len {
        Err(SliceRangeError::EndTooLarge { end, len })
    } else {
        Ok(SliceRange { start, end })
    }
}

impl Default for SliceRange {
    fn default() -> (r: SliceRange)
        ensures
            r.spec_start() == 0,
            r.spec_end() == 0,
    {
        SliceRange::up_to(0)
    }
}

impl SliceBounds for SliceRange {
    open spec fn spec_start_bound(&self) -> Bound<usize> {
        Bound::Included(self.spec_start())
    }

    open spec fn spec_end_bound(&self) -> Bound<usize> {
        Bound::Excluded(self.spec_end())
    }

    fn as_bounds(&self) -> (r: (Bound<&usize>, Bound<&usize>)) {
        (Bound::Included(self.start_ref()), Bound::Excluded(self.end_ref()))
    }
}

impl From<SliceRange> for core::ops::Range<usize> {
    fn from(value: SliceRange) -> (r: core::ops::Range<usize>) {
        value.to_range()
    }
}

impl vstd::std_specs::convert::FromSpecImpl<SliceRange> for core::ops::Range<usize> {
    open spec fn obeys_from_spec() -> bool {
        true
    }

    open spec fn from_spec(v: SliceRange) -> core::ops::Range<usize> {
        v.spec_start()..v.spec_end()
    }
}

impl From<SliceRange> for (Bound<usize>, Bound<usize>) {
    fn from(value: SliceRange) -> (r: (Bound<usize>, Bound<usize>)) {
        value.into_bounds()
    }
}

impl vstd::std_specs::convert::FromSpecImpl<SliceRange> for (Bound<usize>, Bound<usize>) {
    open spec fn obeys_from_spec() -> bool {
        true
    }

    open spec fn from_spec(v: SliceRange) -> (Bound<usize>, Bound<usize>) {
        (Bound::Included(v.spec_start()), Bound::Excluded(v.spec_end()))
    }
}

impl From<&SliceRange> for SliceRange {
    fn from(value: &SliceRange) -> (r: SliceRange) {
        *value
    }
}

impl vstd::std_specs::convert::FromSpecImpl<&SliceRange> for SliceRange {
    open spec fn obeys_from_spec() -> bool {
        true
    }

    open spec fn from_spec(v: &SliceRange) -> SliceRange {
        *v
    }
}

impl From<&SliceRange> for core::ops::Range<usize> {
    fn from(value: &SliceRange) -> (r: core::ops::Range<usize>) {
        value.to_range()
    }
}

impl vstd::std_specs::convert::FromSpecImpl<&SliceRange> for core::ops::Range<usize> {
    open spec fn obeys_from_spec() -> bool {
        true
    }

    open spec fn from_spec(v: &SliceRange) -> core::ops::Range<usize> {
        v.spec_start()..v.spec_end()
    }
}

impl From<&SliceRange> for (Bound<usize>, Bound<usize>) {
    fn from(value: &SliceRange) -> (r: (Bound<usize>, Bound<usize>)) {
        value.to_bounds()
    }
}

impl vstd::std_specs::convert::FromSpecImpl<&SliceRange> for (Bound<usize>, Bound<usize>) {
    open spec fn obeys_from_spec() -> bool {
        true
    }

    open spec fn from_spec(v: &SliceRange) -> (Bound<usize>, Bound<usize>) {
        (Bound::Included(v.spec_start()), Bound::Excluded(v.spec_end()))
    }
}

impl<'a> From<&'a SliceRange> for core::ops::Range<&'a usize> {
    fn from(value: &'a SliceRange) -> (r: core::ops::Range<&'a usize>) {
        value.start_ref()..value.end_ref()
    }
}

impl<'a> vstd::std_specs::convert::FromSpecImpl<&'a SliceRange> for core::ops::Range<&'a usize> {
    open spec fn obeys_from_spec() -> bool {
        true
    }

    open spec fn from_spec(v: &'a SliceRange) -> core::ops::Range<&'a usize> {
        (&v.spec_start())..(&v.spec_end())
    }
}

impl<'a> From<&'a SliceRange> for (Bound<&'a usize>, Bound<&'a usize>) {
    fn from(value: &'a SliceRange) -> (r: (Bound<&'a usize>, Bound<&'a usize>)) {
        value.as_bounds()
    }
}

impl<'a> vstd::std_specs::convert::FromSpecImpl<&'a SliceRange> for (Bound<&'a usize>, Bound<&'a usize>) {
    open spec fn obeys_from_spec() -> bool {
        true
    }

    open spec fn from_spec(v: &'a SliceRange) -> (Bound<&'a usize>, Bound<&'a usize>) {
        (Bound::Included(&v.spec_start()), Bound::Excluded(&v.spec_end()))
    }
}

/// The [`SliceRange`] that a successful conversion of bounds describes, or
/// its error.
pub closed spec fn spec_slice_range(r: Result<(usize, usize), SliceRangeError>) -> Result<
    SliceRange,
    SliceRangeError,
> {
    match r {
        Ok((start, end)) => Ok(SliceRange { start, end }),
        Err(e) => Err(e),
    }
}

/// What converting `start..end` into a [`SliceRange`] gives: the range
/// itself when `start <= end`, `StartTooLarge` otherwise.
pub open spec fn spec_try_from_range(v: core::ops::Range<usize>) -> Result<
    SliceRange,
    SliceRangeError,
> {
    spec_slice_range(
        spec_try_from_bounds(Bound::Included(v.start), Bound::Excluded(v.end), usize::MAX),
    )
}

/// What converting `start..=end` into a [`SliceRange`] gives: the range
/// `start..end + 1`, or `EndOverflow` when `end == usize::MAX`, or
/// `StartTooLarge` when `start > end + 1`. A range iterated to exhaustion
/// excludes its end: it gives `start..end`.
pub open spec fn spec_try_from_range_inclusive(v: core::ops::RangeInclusive<usize>) -> Result<
    SliceRange,
    SliceRangeError,
> {
    spec_slice_range(
        spec_try_from_bounds(Bound::Included(v@.start), spec_inclusive_end_bound(v), usize::MAX),
    )
}

impl TryFrom<core::ops::Range<usize>> for SliceRange {
    type Error = SliceRangeError;

    fn try_from(value: core::ops::Range<usize>) -> (r: Result<SliceRange, SliceRangeError>)
        ensures
            spec_range_result(r) == spec_try_from_bounds(
                Bound::Included(value.start),
                Bound::Excluded(value.end),
                usize::MAX,
            ),
    {
        try_from_bounds((Bound::Included(&value.start), Bound::Excluded(&value.end)), usize::MAX)
    }
}

impl vstd::std_specs::convert::TryFromSpecImpl<core::ops::Range<usize>> for SliceRange {
    open spec fn obeys_try_from_spec() -> bool {
        true
    }

    open spec fn try_from_spec(v: core::ops::Range<usize>) -> Result<SliceRange, SliceRangeError> {
        spec_try_from_range(v)
    }
}

impl<'a> TryFrom<&'a core::ops::Range<usize>> for SliceRange {
    type Error = SliceRangeError;

    fn try_from(value: &'a core::ops::Range<usize>) -> (r: Result<SliceRange, SliceRangeError>)
        ensures
            spec_range_result(r) == spec_try_from_bounds(
                Bound::Included(value.start),
                Bound::Excluded(value.end),
                usize::MAX,
            ),
    {
        try_from_bounds((Bound::Included(&value.start), Bound::Excluded(&value.end)), usize::MAX)
    }
}

impl<'a> vstd::std_specs::convert::TryFromSpecImpl<&'a core::ops::Range<usize>> for SliceRange {
    open spec fn obeys_try_from_spec() -> bool {
        true
    }

    open spec fn try_from_spec(v: &'a core::ops::Range<usize>) -> Result<SliceRange, SliceRangeError> {
        spec_try_from_range(*v)
    }
}

impl TryFrom<core::ops::RangeInclusive<usize>> for SliceRange {
    type Error = SliceRangeError;

    fn try_from(value: core::ops::RangeInclusive<usize>) -> (r: Result<SliceRange, SliceRangeError>)
        ensures
            spec_range_result(r) == spec_try_from_bounds(
                Bound::Included(value@.start),
                spec_inclusive_end_bound(value),
                usize::MAX,
            ),
    {
        try_from_bounds(
            (Bound::Included(range_inclusive_start(&value)), range_inclusive_end_bound(&value)),
            usize::MAX,
        )
    }
}

impl vstd::std_specs::convert::TryFromSpecImpl<core::ops::RangeInclusive<usize>> for SliceRange {
    open spec fn obeys_try_from_spec() -> bool {
        true
    }

    open spec fn try_from_spec(v: core::ops::RangeInclusive<usize>) -> Result<SliceRange, SliceRangeError> {
        spec_try_from_range_inclusive(v)
    }
}

impl<'a> TryFrom<&'a core::ops::RangeInclusive<usize>> for SliceRange {
    type Error = SliceRangeError;

    fn try_from(value: &'a core::ops::RangeInclusive<usize>) -> (r: Result<SliceRange, SliceRangeError>)
        ensures
            spec_range_result(r) == spec_try_from_bounds(
                Bound::Included(value@.start),
                spec_inclusive_end_bound(*value),
                usize::MAX,
            ),
    {
        try_from_bounds(
            (Bound::Included(range_inclusive_start(value)), range_inclusive_end_bound(value)),
            usize::MAX,
        )
    }
}

impl<'a> vstd::std_specs::convert::TryFromSpecImpl<&'a core::ops::RangeInclusive<usize>> for SliceRange {
    open spec fn obeys_try_from_spec() -> bool {
        true
    }

    open spec fn try_from_spec(v: &'a core::ops::RangeInclusive<usize>) -> Result<SliceRange, SliceRangeError> {
        spec_try_from_range_inclusive(*v)
    }
}

impl<T> core::ops::Index<SliceRange> for [T] {
    type Output = [T];

    /// The elements in `index`; the caller ensures that `index` lies
    /// within the slice.
    fn index(&self, index: SliceRange) -> (r: &[T])
        ensures
            r@ == self@.subrange(index.spec_start() as int, index.spec_end() as int),
    {
        index.compiler_hints();
        &self[index.start()..index.end()]
    }
}

impl<T> vstd::std_specs::core::IndexSpecImpl<SliceRange> for [T] {
    /// A range may index a slice when it ends within the slice.
    open spec fn index_req(&self, index: &SliceRange) -> bool {
        index.spec_end() <= self@.len()
    }
}

impl<'a, T> core::ops::Index<&'a SliceRange> for [T] {
    type Output = [T];

    /// The elements in `index`; the caller ensures that `index` lies
    /// within the slice.
    fn index(&self, index: &'a SliceRange) -> (r: &[T])
        ensures
            r@ == self@.subrange(index.spec_start() as int, index.spec_end() as int),
    {
        &self[*index]
    }
}

impl<'a, T> vstd::std_specs::core::IndexSpecImpl<&'a SliceRange> for [T] {
    /// A range may index a slice when it ends within the slice.
    open spec fn index_req(&self, index: &&'a SliceRange) -> bool {
        index.spec_end() <= self@.len()
    }
}

/// Converting a `start..end` range checks, in this order, that
/// `start <= end` and that `end <= len`: a start past the end is reported as
/// `StartTooLarge`, whatever the length, and only an end past the length of
/// an ordered range as `EndTooLarge`.
pub proof fn lemma_range_checked_in_order(start: usize, end: usize, len: usize)
    ensures
        start > end ==> spec_try_from_bounds(Bound::Included(start), Bound::Excluded(end), len)
            == Err::<(usize, usize), SliceRangeError>(SliceRangeError::StartTooLarge { start, end }),
        start <= end && end > len ==> spec_try_from_bounds(
            Bound::Included(start),
            Bound::Excluded(end),
            len,
        ) == Err::<(usize, usize), SliceRangeError>(SliceRangeError::EndTooLarge { end, len }),
        start <= end && end <= len ==> spec_try_from_bounds(
            Bound::Included(start),
            Bound::Excluded(end),
            len,
        ) == Ok::<(usize, usize), SliceRangeError>((start, end)),
{
}

/// An excluded start `s` is the included start `s + 1`, and one at
/// `usize::MAX` overflows whatever the end; an absent start is the included
/// start `0`; an absent end is the excluded end `len`, and an included end
/// at `usize::MAX` overflows once the start is known not to.
pub proof fn lemma_bound_kinds(start: Bound<usize>, end: Bound<usize>, s: usize, len: usize)
    ensures
        s < usize::MAX ==> spec_try_from_bounds(Bound::Excluded(s), end, len)
            == spec_try_from_bounds(Bound::Included((s + 1) as usize), end, len),
        spec_try_from_bounds(Bound::Excluded(usize::MAX), end, len) == Err::<
            (usize, usize),
            SliceRangeError,
        >(SliceRangeError::StartOverflow),
        spec_try_from_bounds(Bound::Unbounded, end, len) == spec_try_from_bounds(
            Bound::Included(0),
            end,
            len,
        ),
        spec_try_from_bounds(start, Bound::Unbounded, len) == spec_try_from_bounds(
            start,
            Bound::Excluded(len),
            len,
        ),
        spec_try_from_bounds(Bound::Included(s), Bound::Included(usize::MAX), len) == Err::<
            (usize, usize),
            SliceRangeError,
        >(SliceRangeError::EndOverflow),
{
}

/// Every successful conversion of bounds lies within the slice:
/// `start <= end <= len`.
pub proof fn lemma_bounds_within(start: Bound<usize>, end: Bound<usize>, len: usize)
    ensures
        spec_try_from_bounds(start, end, len) matches Ok((s, e)) ==> s <= e <= len,
{
}

/// Reading a [`SliceRange`] back through its own bounds, within any length
/// that holds it, gives back the same range.
pub proof fn lemma_bounds_round_trip(range: SliceRange, len: usize)
    requires
        range.spec_start() <= range.spec_end() <= len,
    ensures
        spec_try_from_bounds(range.spec_start_bound(), range.spec_end_bound(), len) == Ok::<
            (usize, usize),
            SliceRangeError,
        >((range.spec_start(), range.spec_end())),
{
}

/// Unbounded on both sides, the bounds cover the whole slice: `0..len`.
pub proof fn lemma_full_bounds(len: usize)
    ensures
        spec_try_from_bounds(Bound::Unbounded, Bound::Unbounded, len) == Ok::<
            (usize, usize),
            SliceRangeError,
        >((0, len)),
{
}

/// An inclusive end bound `..=e` denotes the same range as the exclusive
/// end bound `..e + 1`.
pub proof fn lemma_inclusive_end(start: Bound<usize>, e: usize, len: usize)
    requires
        e < usize::MAX,
    ensures
        spec_try_from_bounds(start, Bound::Included(e), len) == spec_try_from_bounds(
            start,
            Bound::Excluded((e + 1) as usize),
            len,
        ),
{
}

} // verus!
