use vstd::prelude::*;

/// Error types.
pub mod error;

/// The implementation of [`Slice`] for `[T]`.
pub mod slice;

/// The implementation of [`Slice`] for `str`.
pub mod str;

/// Keeps [`Slice`] to the slice types of this crate.
mod sealed;

pub use error::{AsElemsError, FromElemsError, FromSplitErrorFailure, OobIndex, SplitError};
pub use self::str::{StrAsElemsError, StrSplitError};

verus! {

/// The slice types that this crate supports: `[T]` and `str`.
///
/// Every slice is backed by a sequence of elements (`Elem`); its length is
/// the number of those elements. Not every sequence of elements need form a
/// valid slice (a `str` must hold well-formed UTF-8), and not every index
/// need be a valid place to split it (a `str` splits only at character
/// boundaries).
pub trait Slice: sealed::Sealed {
    /// The element type that backs the slice in memory.
    type Elem;

    /// The error returned when creating a `Self` from some `[Elem]` fails.
    type FromElemsErr;

    /// The error returned when getting a `[Elem]` from some `Self` fails.
    type AsElemsErr;

    /// An error, other than out-of-bounds, that splitting the slice may report.
    type SplitErr;

    /// The elements that back the slice.
    spec fn spec_elems(&self) -> Seq<Self::Elem>;

    /// Whether `elems` forms a valid `Self`.
    spec fn spec_valid_elems(elems: Seq<Self::Elem>) -> bool;

    /// Whether the elements of a `Self` may be borrowed mutably.
    spec fn spec_elems_mut_ok() -> bool;

    /// Whether `index` is a valid place to split a slice made of `elems`.
    spec fn spec_split_ok(elems: Seq<Self::Elem>, index: int) -> bool;

    /// The error other than out-of-bounds reported for an in-bounds index at
    /// which a slice cannot be split.
    spec fn spec_split_other(index: usize) -> Self::SplitErr;

    /// The index that a split error reports.
    spec fn spec_split_error_index(error: Self::SplitErr) -> usize;

    /// The elements of every slice form a valid slice.
    proof fn lemma_valid(&self)
        ensures
            Self::spec_valid_elems(self.spec_elems()),
    ;

    /// For valid elements, a split index lies within them, and both ends are
    /// valid split indices.
    proof fn lemma_split_bounds(elems: Seq<Self::Elem>)
        requires
            Self::spec_valid_elems(elems),
        ensures
            forall|i: int| #[trigger] Self::spec_split_ok(elems, i) ==> 0 <= i <= elems.len(),
            Self::spec_split_ok(elems, 0),
            Self::spec_split_ok(elems, elems.len() as int),
    ;

    /// Splitting valid elements at a valid index gives valid halves, and the
    /// valid split indices of each half are those of the whole, shifted.
    proof fn lemma_split_halves(elems: Seq<Self::Elem>, c: int)
        requires
            Self::spec_valid_elems(elems),
            Self::spec_split_ok(elems, c),
        ensures
            Self::spec_valid_elems(elems.take(c)),
            Self::spec_valid_elems(elems.skip(c)),
            forall|k: int|
                0 <= k <= c ==> (#[trigger] Self::spec_split_ok(elems.take(c), k)
                    <==> Self::spec_split_ok(elems, k)),
            forall|a: int|
                0 <= a <= elems.len() - c ==> (#[trigger] Self::spec_split_ok(elems.skip(c), a)
                    <==> Self::spec_split_ok(elems, c + a)),
    ;

    /// Returns the length of the slice, in elements.
    fn len(&self) -> (r: usize)
        ensures
            r == self.spec_elems().len(),
    ;

    /// Returns whether the slice contains no elements.
    fn is_empty(&self) -> (r: bool)
        ensures
            r == (self.spec_elems().len() == 0),
    ;

    /// Try to create a slice from a slice of its elements.
    fn try_from_elems(elems: &[Self::Elem]) -> (r: Result<&Self, FromElemsError<Self>>)
        ensures
            r is Ok <==> Self::spec_valid_elems(elems@),
            r matches Ok(s) ==> s.spec_elems() == elems@,
    ;

    /// Create a slice from a slice of its elements; the caller ensures the
    /// elements form a valid slice.
    fn from_elems(elems: &[Self::Elem]) -> (r: &Self)
        requires
            Self::spec_valid_elems(elems@),
        ensures
            r.spec_elems() == elems@,
    ;

    /// Create a slice from a slice of its elements without a run-time check.
    fn from_elems_unchecked(elems: &[Self::Elem]) -> (r: &Self)
        requires
            Self::spec_valid_elems(elems@),
        ensures
            r.spec_elems() == elems@,
    ;

    /// Try to create a mutable slice from a mutable slice of its elements.
    ///
    /// Once the borrow ends, the elements are those of the slice.
    fn try_from_elems_mut(elems: &mut [Self::Elem]) -> (r: Result<&mut Self, FromElemsError<Self>>)
        ensures
            r is Ok <==> Self::spec_valid_elems(old(elems)@),
            r matches Ok(s) ==> s.spec_elems() == old(elems)@
                && final(elems)@ == final(s).spec_elems(),
            r is Err ==> final(elems)@ == old(elems)@,
    ;

    /// Create a mutable slice from a mutable slice of its elements; the
    /// caller ensures the elements form a valid slice.
    fn from_elems_mut(elems: &mut [Self::Elem]) -> (r: &mut Self)
        requires
            Self::spec_valid_elems(old(elems)@),
        ensures
            r.spec_elems() == old(elems)@,
            final(elems)@ == final(r).spec_elems(),
    ;

    /// Try to get a reference to the underlying elements of a slice.
    fn try_as_elems(&self) -> (r: Result<&[Self::Elem], AsElemsError<Self>>)
        ensures
            r matches Ok(e) && e@ == self.spec_elems(),
    ;

    /// Get a reference to the underlying elements of a slice.
    fn as_elems(&self) -> (r: &[Self::Elem])
        ensures
            r@ == self.spec_elems(),
    ;

    /// Get a reference to the underlying elements of a slice without a check.
    fn as_elems_unchecked(&self) -> (r: &[Self::Elem])
        ensures
            r@ == self.spec_elems(),
    ;

    /// Try to get a mutable reference to the underlying elements of a slice.
    ///
    /// Fails exactly for slice types whose elements may not be borrowed
    /// mutably.
    fn try_as_elems_mut(&mut self) -> (r: Result<&mut [Self::Elem], AsElemsError<Self>>)
        ensures
            r is Ok <==> Self::spec_elems_mut_ok(),
            r matches Ok(e) ==> e@ == old(self).spec_elems() && final(self).spec_elems() == final(e)@,
            r is Err ==> final(self).spec_elems() == old(self).spec_elems(),
    ;

    /// Determines whether it is valid to split the slice at `index`.
    ///
    /// Returns an out-of-bounds error if `index > len`, and the slice type's
    /// own error if `index` is in bounds but not a valid place to split.
    fn validate_split_at(&self, index: usize) -> (r: Result<(), SplitError<Self>>)
        ensures
            r is Ok <==> Self::spec_split_ok(self.spec_elems(), index as int),
            index > self.spec_elems().len() ==> (r matches Err(
                SplitError::OutOfBounds { index: i, len },
            ) && i.spec_value() == index && len == self.spec_elems().len()),
            index <= self.spec_elems().len() && !Self::spec_split_ok(self.spec_elems(), index as int) ==> r == Err::<
                (),
                SplitError<Self>,
            >(SplitError::Other(Self::spec_split_other(index))),
    ;

    /// Split the slice at `index`; the caller ensures `index` is a valid
    /// place to split.
    ///
    /// Returns `(head, tail)`.
    fn split_at_valid(&self, index: usize) -> (r: (&Self, &Self))
        requires
            Self::spec_split_ok(self.spec_elems(), index as int),
        ensures
            r.0.spec_elems() == self.spec_elems().take(index as int),
            r.1.spec_elems() == self.spec_elems().skip(index as int),
    ;

    /// Split the slice mutably at `index`; the caller ensures `index` is a
    /// valid place to split.
    ///
    /// Returns `(head, tail)`; once both borrows end, the slice holds the
    /// elements of `head` followed by those of `tail`.
    fn split_at_mut_valid(&mut self, index: usize) -> (r: (&mut Self, &mut Self))
        requires
            Self::spec_split_ok(old(self).spec_elems(), index as int),
        ensures
            r.0.spec_elems() == old(self).spec_elems().take(index as int),
            r.1.spec_elems() == old(self).spec_elems().skip(index as int),
            final(self).spec_elems() == final(r.0).spec_elems() + final(r.1).spec_elems(),
    ;

    /// Gets the index that a split error reports.
    fn split_error_index(error: &Self::SplitErr) -> (r: usize)
        ensures
            r == Self::spec_split_error_index(*error),
    ;
}

/// Whether `e` is the error that splitting a slice made of `elems` at an
/// invalid `index` reports: an out-of-bounds error carrying `index` and the
/// length when `index` exceeds the length, and the slice type's own error
/// otherwise.
pub open spec fn spec_split_error<S: Slice + ?Sized>(
    elems: Seq<S::Elem>,
    index: usize,
    e: SplitError<S>,
) -> bool {
    if index > elems.len() {
        e matches SplitError::OutOfBounds { index: i, len } && i.spec_value() == index && len
            == elems.len()
    } else {
        e == SplitError::<S>::Other(S::spec_split_other(index))
    }
}

/// Returns the length of the provided slice, in elements.
pub fn len<S: Slice + ?Sized>(slice: &S) -> (r: usize)
    ensures
        r == slice.spec_elems().len(),
{
    slice.len()
}

/// Returns whether the given slice contains no elements.
pub fn is_empty<S: Slice + ?Sized>(slice: &S) -> (r: bool)
    ensures
        r == (slice.spec_elems().len() == 0),
{
    slice.is_empty()
}

/// Try to create a slice from a slice of its elements.
pub fn try_from_elems<S: Slice + ?Sized>(elems: &[S::Elem]) -> (r: Result<&S, FromElemsError<S>>)
    ensures
        r is Ok <==> S::spec_valid_elems(elems@),
        r matches Ok(s) ==> s.spec_elems() == elems@,
{
    S::try_from_elems(elems)
}

/// Create a slice from a slice of its elements; the caller ensures the
/// elements form a valid slice.
pub fn from_elems<S: Slice + ?Sized>(elems: &[S::Elem]) -> (r: &S)
    requires
        S::spec_valid_elems(elems@),
    ensures
        r.spec_elems() == elems@,
{
    S::from_elems(elems)
}

/// Create a slice from a slice of its elements without a run-time check.
pub fn from_elems_unchecked<S: Slice + ?Sized>(elems: &[S::Elem]) -> (r: &S)
    requires
        S::spec_valid_elems(elems@),
    ensures
        r.spec_elems() == elems@,
{
    S::from_elems_unchecked(elems)
}

/// Try to create a mutable slice from a mutable slice of its elements.
///
/// Once the borrow ends, the elements are those of the slice.
pub fn try_from_elems_mut<S: Slice + ?Sized>(elems: &mut [S::Elem]) -> (r: Result<
    &mut S,
    FromElemsError<S>,
>)
    ensures
        r is Ok <==> S::spec_valid_elems(old(elems)@),
        r matches Ok(s) ==> s.spec_elems() == old(elems)@ && final(elems)@ == final(s).spec_elems(),
        r is Err ==> final(elems)@ == old(elems)@,
{
    S::try_from_elems_mut(elems)
}

/// Create a mutable slice from a mutable slice of its elements; the caller
/// ensures the elements form a valid slice.
pub fn from_elems_mut<S: Slice + ?Sized>(elems: &mut [S::Elem]) -> (r: &mut S)
    requires
        S::spec_valid_elems(old(elems)@),
    ensures
        r.spec_elems() == old(elems)@,
        final(elems)@ == final(r).spec_elems(),
{
    S::from_elems_mut(elems)
}

/// Create a mutable slice from a mutable slice of its elements without a
/// run-time failure path.
pub fn from_elems_mut_unchecked<S: Slice + ?Sized>(elems: &mut [S::Elem]) -> (r: &mut S)
    requires
        S::spec_valid_elems(old(elems)@),
    ensures
        r.spec_elems() == old(elems)@,
        final(elems)@ == final(r).spec_elems(),
{
    from_elems_mut(elems)
}

/// Try to get a reference to the underlying elements of a slice.
pub fn try_as_elems<S: Slice + ?Sized>(slice: &S) -> (r: Result<&[S::Elem], AsElemsError<S>>)
    ensures
        r matches Ok(e) && e@ == slice.spec_elems(),
{
    slice.try_as_elems()
}

/// Get a reference to the underlying elements of a slice.
pub fn as_elems<S: Slice + ?Sized>(slice: &S) -> (r: &[S::Elem])
    ensures
        r@ == slice.spec_elems(),
{
    slice.as_elems()
}

/// Get a reference to the underlying elements of a slice without a check.
pub fn as_elems_unchecked<S: Slice + ?Sized>(slice: &S) -> (r: &[S::Elem])
    ensures
        r@ == slice.spec_elems(),
{
    slice.as_elems_unchecked()
}

/// Try to get a mutable reference to the underlying elements of a slice.
pub fn try_as_elems_mut<S: Slice + ?Sized>(slice: &mut S) -> (r: Result<
    &mut [S::Elem],
    AsElemsError<S>,
>)
    ensures
        r is Ok <==> S::spec_elems_mut_ok(),
        r matches Ok(e) ==> e@ == old(slice).spec_elems() && final(slice).spec_elems() == final(e)@,
        r is Err ==> final(slice).spec_elems() == old(slice).spec_elems(),
{
    slice.try_as_elems_mut()
}

/// Get a mutable reference to the underlying elements of a slice; the
/// caller ensures that the slice type lends its elements out mutably (a
/// `[T]` does, a `str` does not).
pub fn as_elems_mut<S: Slice + ?Sized>(slice: &mut S) -> (r: &mut [S::Elem])
    requires
        S::spec_elems_mut_ok(),
    ensures
        r@ == old(slice).spec_elems(),
        final(slice).spec_elems() == final(r)@,
{
    try_as_elems_mut(slice).ok().unwrap()
}

/// Get a mutable reference to the underlying elements of a slice without a
/// run-time failure path; the caller ensures that the slice type lends its
/// elements out mutably.
pub fn as_elems_mut_unchecked<S: Slice + ?Sized>(slice: &mut S) -> (r: &mut [S::Elem])
    requires
        S::spec_elems_mut_ok(),
    ensures
        r@ == old(slice).spec_elems(),
        final(slice).spec_elems() == final(r)@,
{
    as_elems_mut(slice)
}

/// Determines whether it is valid to split `slice` at `index`.
pub fn validate_split_at<S: Slice + ?Sized>(slice: &S, index: usize) -> (r: Result<
    (),
    SplitError<S>,
>)
    ensures
        r is Ok <==> S::spec_split_ok(slice.spec_elems(), index as int),
        r matches Err(e) ==> spec_split_error(slice.spec_elems(), index, e),
{
    slice.validate_split_at(index)
}

/// Split `slice` at `index`; the caller ensures `index` is a valid place to
/// split.
///
/// Returns `(head, tail)`.
pub fn split_at<S: Slice + ?Sized>(slice: &S, index: usize) -> (r: (&S, &S))
    requires
        S::spec_split_ok(slice.spec_elems(), index as int),
    ensures
        r.0.spec_elems() == slice.spec_elems().take(index as int),
        r.1.spec_elems() == slice.spec_elems().skip(index as int),
{
    slice.split_at_valid(index)
}

/// Split `slice` at `index` without a run-time failure path.
pub fn split_at_unchecked<S: Slice + ?Sized>(slice: &S, index: usize) -> (r: (&S, &S))
    requires
        S::spec_split_ok(slice.spec_elems(), index as int),
    ensures
        r.0.spec_elems() == slice.spec_elems().take(index as int),
        r.1.spec_elems() == slice.spec_elems().skip(index as int),
{
    split_at(slice, index)
}

/// Try to split `slice` at `index`.
///
/// Returns `Ok((head, tail))` upon success and the reason otherwise.
pub fn try_split_at<S: Slice + ?Sized>(slice: &S, index: usize) -> (r: Result<
    (&S, &S),
    SplitError<S>,
>)
    ensures
        r is Ok <==> S::spec_split_ok(slice.spec_elems(), index as int),
        r matches Ok(parts) ==> parts.0.spec_elems() == slice.spec_elems().take(index as int)
            && parts.1.spec_elems() == slice.spec_elems().skip(index as int),
        r matches Err(e) ==> spec_split_error(slice.spec_elems(), index, e),
{
    match slice.validate_split_at(index) {
        Ok(()) => Ok(slice.split_at_valid(index)),
        Err(error) => Err(error),
    }
}

/// Split `slice` mutably at `index`; the caller ensures `index` is a valid
/// place to split.
///
/// Returns `(head, tail)`; once both borrows end, the slice holds the
/// elements of `head` followed by those of `tail`.
pub fn split_at_mut<S: Slice + ?Sized>(slice: &mut S, index: usize) -> (r: (&mut S, &mut S))
    requires
        S::spec_split_ok(old(slice).spec_elems(), index as int),
    ensures
        r.0.spec_elems() == old(slice).spec_elems().take(index as int),
        r.1.spec_elems() == old(slice).spec_elems().skip(index as int),
        final(slice).spec_elems() == final(r.0).spec_elems() + final(r.1).spec_elems(),
{
    slice.split_at_mut_valid(index)
}

/// Split `slice` mutably at `index` without a run-time failure path.
pub fn split_at_mut_unchecked<S: Slice + ?Sized>(slice: &mut S, index: usize) -> (r: (
    &mut S,
    &mut S,
))
    requires
        S::spec_split_ok(old(slice).spec_elems(), index as int),
    ensures
        r.0.spec_elems() == old(slice).spec_elems().take(index as int),
        r.1.spec_elems() == old(slice).spec_elems().skip(index as int),
        final(slice).spec_elems() == final(r.0).spec_elems() + final(r.1).spec_elems(),
{
    split_at_mut(slice, index)
}

/// Try to split `slice` mutably at `index`.
///
/// Returns `Ok((head, tail))` upon success and the reason otherwise; on
/// failure the slice is left as it was.
pub fn try_split_at_mut<S: Slice + ?Sized>(slice: &mut S, index: usize) -> (r: Result<
    (&mut S, &mut S),
    SplitError<S>,
>)
    ensures
        r is Ok <==> S::spec_split_ok(old(slice).spec_elems(), index as int),
        r matches Ok(parts) ==> parts.0.spec_elems() == old(slice).spec_elems().take(index as int)
            && parts.1.spec_elems() == old(slice).spec_elems().skip(index as int)
            && final(slice).spec_elems() == final(parts.0).spec_elems() + final(parts.1).spec_elems(),
        r matches Err(e) ==> spec_split_error(old(slice).spec_elems(), index, e)
            && final(slice).spec_elems() == old(slice).spec_elems(),
{
    match slice.validate_split_at(index) {
        Ok(()) => Ok(slice.split_at_mut_valid(index)),
        Err(error) => Err(error),
    }
}

/// Every slice may be split at its start and at its end, and every valid
/// split index lies within it.
pub proof fn lemma_ends_split_ok<S: Slice + ?Sized>(slice: &S)
    ensures
        S::spec_split_ok(slice.spec_elems(), 0),
        S::spec_split_ok(slice.spec_elems(), slice.spec_elems().len() as int),
        forall|i: int| #[trigger]
            S::spec_split_ok(slice.spec_elems(), i) ==> 0 <= i <= slice.spec_elems().len(),
{
    slice.lemma_valid();
    S::lemma_split_bounds(slice.spec_elems());
}

/// Splitting a slice at a valid index gives two valid slices whose
/// elements, joined again, are the elements of the whole.
pub proof fn lemma_split_rejoin<S: Slice + ?Sized>(slice: &S, index: int)
    requires
        S::spec_split_ok(slice.spec_elems(), index),
    ensures
        S::spec_valid_elems(slice.spec_elems().take(index)),
        S::spec_valid_elems(slice.spec_elems().skip(index)),
        slice.spec_elems().take(index) + slice.spec_elems().skip(index) == slice.spec_elems(),
{
    slice.lemma_valid();
    S::lemma_split_bounds(slice.spec_elems());
    S::lemma_split_halves(slice.spec_elems(), index);
    assert(slice.spec_elems().take(index) + slice.spec_elems().skip(index)
        =~= slice.spec_elems());
}

} // verus!
