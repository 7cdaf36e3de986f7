use vstd::prelude::*;

use core::cmp::Ordering;
use vstd::std_specs::cmp::{PartialEqSpec, PartialOrdSpec};

use crate::slice::Slice;
use crate::util::{decimal_string, spec_decimal};
use vstd::string::StringExecFns;

verus! {

/// The error that is returned when creating a slice from its component
/// elements fails.
#[derive(Hash)]
pub struct FromElemsError<S: Slice + ?Sized>(pub S::FromElemsErr);

/// The error that is returned when getting a slice's component elements fails.
#[derive(Hash)]
pub struct AsElemsError<S: Slice + ?Sized>(pub S::AsElemsErr);

impl<S: Slice + ?Sized> Clone for FromElemsError<S> where S::FromElemsErr: Clone {
    fn clone(&self) -> (r: Self)
        ensures
            cloned(self.0, r.0),
    {
        FromElemsError(self.0.clone())
    }
}

impl<S: Slice + ?Sized> Copy for FromElemsError<S> where S::FromElemsErr: Copy {

}

impl<S: Slice + ?Sized> PartialEq for FromElemsError<S> where S::FromElemsErr: PartialEq {
    fn eq(&self, other: &Self) -> (r: bool) {
        self.0 == other.0
    }
}

impl<S: Slice + ?Sized> vstd::std_specs::cmp::PartialEqSpecImpl for FromElemsError<S> where S::FromElemsErr: PartialEq {
    open spec fn obeys_eq_spec() -> bool {
        <S::FromElemsErr>::obeys_eq_spec()
    }

    /// Two errors are equal when the errors they wrap are.
    open spec fn eq_spec(&self, other: &Self) -> bool {
        self.0.eq_spec(&other.0)
    }
}

impl<S: Slice + ?Sized> Eq for FromElemsError<S> where S::FromElemsErr: Eq {

}

impl<S: Slice + ?Sized> PartialOrd for FromElemsError<S> where S::FromElemsErr: PartialOrd {
    fn partial_cmp(&self, other: &Self) -> (r: Option<Ordering>) {
        self.0.partial_cmp(&other.0)
    }
}

impl<S: Slice + ?Sized> vstd::std_specs::cmp::PartialOrdSpecImpl for FromElemsError<S> where S::FromElemsErr: PartialOrd {
    open spec fn obeys_partial_cmp_spec() -> bool {
        <S::FromElemsErr>::obeys_partial_cmp_spec()
    }

    /// Two errors order as the errors they wrap do.
    open spec fn partial_cmp_spec(&self, other: &Self) -> Option<Ordering> {
        self.0.partial_cmp_spec(&other.0)
    }
}

impl<S: Slice + ?Sized> Clone for AsElemsError<S> where S::AsElemsErr: Clone {
    fn clone(&self) -> (r: Self)
        ensures
            cloned(self.0, r.0),
    {
        AsElemsError(self.0.clone())
    }
}

impl<S: Slice + ?Sized> Copy for AsElemsError<S> where S::AsElemsErr: Copy {

}

impl<S: Slice + ?Sized> PartialEq for AsElemsError<S> where S::AsElemsErr: PartialEq {
    fn eq(&self, other: &Self) -> (r: bool) {
        self.0 == other.0
    }
}

impl<S: Slice + ?Sized> vstd::std_specs::cmp::PartialEqSpecImpl for AsElemsError<S> where S::AsElemsErr: PartialEq {
    open spec fn obeys_eq_spec() -> bool {
        <S::AsElemsErr>::obeys_eq_spec()
    }

    /// Two errors are equal when the errors they wrap are.
    open spec fn eq_spec(&self, other: &Self) -> bool {
        self.0.eq_spec(&other.0)
    }
}

impl<S: Slice + ?Sized> Eq for AsElemsError<S> where S::AsElemsErr: Eq {

}

impl<S: Slice + ?Sized> PartialOrd for AsElemsError<S> where S::AsElemsErr: PartialOrd {
    fn partial_cmp(&self, other: &Self) -> (r: Option<Ordering>) {
        self.0.partial_cmp(&other.0)
    }
}

impl<S: Slice + ?Sized> vstd::std_specs::cmp::PartialOrdSpecImpl for AsElemsError<S> where S::AsElemsErr: PartialOrd {
    open spec fn obeys_partial_cmp_spec() -> bool {
        <S::AsElemsErr>::obeys_partial_cmp_spec()
    }

    /// Two errors order as the errors they wrap do.
    open spec fn partial_cmp_spec(&self, other: &Self) -> Option<Ordering> {
        self.0.partial_cmp_spec(&other.0)
    }
}

/// An index that lies outside of some slice.
///
/// The index is never zero; a negative index lies before the start of the
/// slice, a positive one past its end. A negative index fits in an `isize`,
/// a positive one in a `usize`.
#[derive(Debug, Clone, Copy, PartialEq, Eq, Structural, PartialOrd, Ord, Hash)]
pub struct OobIndex {
    repr: i128,
}

impl OobIndex {
    #[verifier::type_invariant]
    spec fn well_formed(self) -> bool {
        &&& self.repr != 0
        &&& isize::MIN <= self.repr <= usize::MAX
    }

    /// The index as an integer.
    pub closed spec fn spec_value(self) -> int {
        self.repr as int
    }

    /// States that the index is nonzero and lies in `isize::MIN..=usize::MAX`.
    pub fn compiler_hints(&self)
        ensures
            self.spec_value() != 0,
            isize::MIN <= self.spec_value() <= usize::MAX,
    {
        proof {
            use_type_invariant(self);
        }
    }

    /// Attempt to create a new [`OobIndex`] from a positive index.
    ///
    /// Returns `None` if `x` is not positive.
    pub fn from_positive(x: usize) -> (r: Option<OobIndex>)
        ensures
            r is Some <==> x > 0,
            r matches Some(i) ==> i.spec_value() == x,
    {
        if x > 0 {
            Some(OobIndex { repr: x as i128 })
        } else {
            None
        }
    }

    /// Attempt to create a new [`OobIndex`] from a negative index.
    ///
    /// Returns `None` if `x` is not negative.
    pub fn from_negative(x: isize) -> (r: Option<OobIndex>)
        ensures
            r is Some <==> x < 0,
            r matches Some(i) ==> i.spec_value() == x,
    {
        if x < 0 {
            Some(OobIndex { repr: x as i128 })
        } else {
            None
        }
    }

    /// Get the index as a positive number.
    ///
    /// Returns `Err(negative)` if the index is negative.
    pub fn as_positive(self) -> (r: Result<usize, isize>)
        ensures
            self.spec_value() > 0 ==> r == Ok::<usize, isize>(self.spec_value() as usize),
            self.spec_value() < 0 ==> r == Err::<usize, isize>(self.spec_value() as isize),
            self.spec_value() != 0,
    {
        proof {
            use_type_invariant(&self);
        }
        if self.repr > 0 {
            Ok(self.repr as usize)
        } else {
            Err(self.repr as isize)
        }
    }

    /// Get the index as a negative number.
    ///
    /// Returns `Err(positive)` if the index is positive.
    pub fn as_negative(self) -> (r: Result<isize, usize>)
        ensures
            self.spec_value() < 0 ==> r == Ok::<isize, usize>(self.spec_value() as isize),
            self.spec_value() > 0 ==> r == Err::<isize, usize>(self.spec_value() as usize),
            self.spec_value() != 0,
    {
        match self.as_positive() {
            Ok(positive) => Err(positive),
            Err(negative) => Ok(negative),
        }
    }

    /// Returns whether this index is positive.
    pub fn is_positive(self) -> (r: bool)
        ensures
            r == (self.spec_value() > 0),
    {
        self.as_positive().is_ok()
    }

    /// Returns whether this index is negative.
    pub fn is_negative(self) -> (r: bool)
        ensures
            r == (self.spec_value() < 0),
    {
        self.as_negative().is_ok()
    }

    /// The index written in decimal.
    pub open spec fn spec_to_string(self) -> Seq<char> {
        spec_decimal(self.spec_value())
    }

    /// Writes the index in decimal.
    pub fn to_string(&self) -> (r: String)
        ensures
            r@ == self.spec_to_string(),
    {
        decimal_string(self.repr)
    }
}

/// The text that describes an out-of-bounds `index` into a slice of `len`
/// elements.
pub open spec fn spec_out_of_bounds_text(index: OobIndex, len: usize) -> Seq<char> {
    "index is out of bounds: `"@ + index.spec_to_string() + " >= "@ + spec_decimal(len as int)
        + "`"@
}

/// Describes an out-of-bounds `index` into a slice of `len` elements.
pub fn out_of_bounds_text(index: &OobIndex, len: usize) -> (r: String)
    ensures
        r@ == spec_out_of_bounds_text(*index, len),
{
    let mut text = "index is out of bounds: `".to_owned();
    text.append(index.to_string().as_str());
    text.append(" >= ");
    text.append(decimal_string(len as i128).as_str());
    text.append("`");
    text
}

/// An error detailing why it is not possible to split some slice.
#[derive(Hash)]
pub enum SplitError<S: Slice + ?Sized> {
    /// The index is out of bounds of the length.
    OutOfBounds {
        /// The index that is out of bounds.
        index: OobIndex,
        /// The length of the slice.
        len: usize,
    },
    /// Some other error occurred.
    Other(S::SplitErr),
}

impl<S: Slice + ?Sized> SplitError<S> {
    /// Returns the index that caused this error.
    ///
    /// Returns `None` for an out-of-bounds index below zero, which no `usize`
    /// can hold.
    pub fn index(&self) -> (r: Option<usize>)
        ensures
            match self {
                SplitError::OutOfBounds { index, .. } => if index.spec_value() > 0 {
                    r == Some(index.spec_value() as usize)
                } else {
                    r is None
                },
                SplitError::Other(e) => r == Some(S::spec_split_error_index(*e)),
            },
    {
        match self {
            SplitError::OutOfBounds { index, .. } => index.as_positive().ok(),
            SplitError::Other(error) => Some(S::split_error_index(error)),
        }
    }
}

/// An error indicating why getting something from a [`SplitError`] failed.
#[derive(Debug, Clone, Copy, PartialEq, Eq, Structural, PartialOrd, Ord, Hash)]
pub enum FromSplitErrorFailure {
    /// The [`SplitError`] was not of the [`Other`](SplitError::Other) variant.
    NotOther,
}

impl FromSplitErrorFailure {
    /// The text that describes this failure.
    pub open spec fn spec_to_string(self) -> Seq<char> {
        "split error is not the `Other` variant"@
    }

    /// Describes this failure.
    pub fn to_string(&self) -> (r: String)
        ensures
            r@ == self.spec_to_string(),
    {
        match self {
            FromSplitErrorFailure::NotOther => "split error is not the `Other` variant".to_owned(),
        }
    }
}

impl<T> SplitError<[T]> {
    /// Describes this error. A slice of `T` reports no other kind of error.
    pub fn to_string(&self) -> (r: String)
        ensures
            *self matches SplitError::OutOfBounds { index, len } ==> r@ == spec_out_of_bounds_text(
                index,
                len,
            ),
    {
        match self {
            SplitError::OutOfBounds { index, len } => out_of_bounds_text(index, *len),
            // `Infallible` has no values, so this arm is never taken.
            SplitError::Other(_) => String::new(),
        }
    }
}

impl<S: Slice + ?Sized> PartialEq for SplitError<S> where S::SplitErr: PartialEq {
    fn eq(&self, other: &Self) -> (r: bool) {
        match (self, other) {
            (
                SplitError::OutOfBounds { index: l_index, len: l_len },
                SplitError::OutOfBounds { index: r_index, len: r_len },
            ) => l_index.repr == r_index.repr && *l_len == *r_len,
            (SplitError::Other(l), SplitError::Other(r)) => l == r,
            _ => false,
        }
    }
}

impl<S: Slice + ?Sized> vstd::std_specs::cmp::PartialEqSpecImpl for SplitError<S> where S::SplitErr: PartialEq {
    open spec fn obeys_eq_spec() -> bool {
        <S::SplitErr>::obeys_eq_spec()
    }

    /// Two out-of-bounds errors are equal when their indices and lengths
    /// are; two other errors when the slice type's errors are.
    open spec fn eq_spec(&self, other: &Self) -> bool {
        match (self, other) {
            (
                SplitError::OutOfBounds { index: l_index, len: l_len },
                SplitError::OutOfBounds { index: r_index, len: r_len },
            ) => l_index.spec_value() == r_index.spec_value() && l_len == r_len,
            (SplitError::Other(l), SplitError::Other(r)) => l.eq_spec(r),
            _ => false,
        }
    }
}

/// How two integers compare.
pub open spec fn int_order(l: int, r: int) -> Ordering {
    if l < r {
        Ordering::Less
    } else if l > r {
        Ordering::Greater
    } else {
        Ordering::Equal
    }
}

/// How two lengths compare.
pub open spec fn len_order(l: usize, r: usize) -> Ordering {
    if l < r {
        Ordering::Less
    } else if l > r {
        Ordering::Greater
    } else {
        Ordering::Equal
    }
}

impl<S: Slice + ?Sized> PartialOrd for SplitError<S> where S::SplitErr: PartialOrd {
    fn partial_cmp(&self, other: &Self) -> (r: Option<Ordering>) {
        match (self, other) {
            (
                SplitError::OutOfBounds { index: l_index, len: l_len },
                SplitError::OutOfBounds { index: r_index, len: r_len },
            ) => {
                if l_index.repr < r_index.repr {
                    Some(Ordering::Less)
                } else if l_index.repr > r_index.repr {
                    Some(Ordering::Greater)
                } else if *l_len < *r_len {
                    Some(Ordering::Less)
                } else if *l_len > *r_len {
                    Some(Ordering::Greater)
                } else {
                    Some(Ordering::Equal)
                }
            },
            (SplitError::Other(l), SplitError::Other(r)) => l.partial_cmp(r),
            (SplitError::OutOfBounds { .. }, SplitError::Other(_)) => Some(Ordering::Greater),
            (SplitError::Other(_), SplitError::OutOfBounds { .. }) => Some(Ordering::Less),
        }
    }
}

impl<S: Slice + ?Sized> vstd::std_specs::cmp::PartialOrdSpecImpl for SplitError<S> where S::SplitErr: PartialOrd {
    open spec fn obeys_partial_cmp_spec() -> bool {
        <S::SplitErr>::obeys_partial_cmp_spec()
    }

    /// Out-of-bounds errors order by index, then by length, and after every
    /// other error; other errors order as the slice type's errors do.
    open spec fn partial_cmp_spec(&self, other: &Self) -> Option<Ordering> {
        match (self, other) {
            (
                SplitError::OutOfBounds { index: l_index, len: l_len },
                SplitError::OutOfBounds { index: r_index, len: r_len },
            ) => Some(
                if l_index.spec_value() != r_index.spec_value() {
                    int_order(l_index.spec_value(), r_index.spec_value())
                } else {
                    len_order(*l_len, *r_len)
                },
            ),
            (SplitError::Other(l), SplitError::Other(r)) => l.partial_cmp_spec(r),
            (SplitError::OutOfBounds { .. }, SplitError::Other(_)) => Some(Ordering::Greater),
            (SplitError::Other(_), SplitError::OutOfBounds { .. }) => Some(Ordering::Less),
        }
    }
}

impl<S: Slice + ?Sized> Clone for SplitError<S> where S::SplitErr: Clone {
    fn clone(&self) -> (r: Self)
        ensures
            match *self {
                SplitError::OutOfBounds { .. } => r == *self,
                SplitError::Other(e) => (r matches SplitError::Other(c) && cloned(e, c)),
            },
    {
        match self {
            SplitError::OutOfBounds { index, len } => SplitError::OutOfBounds {
                index: *index,
                len: *len,
            },
            SplitError::Other(error) => SplitError::Other(error.clone()),
        }
    }
}

impl<S: Slice + ?Sized> Copy for SplitError<S> where S::SplitErr: Copy {

}

} // verus!
