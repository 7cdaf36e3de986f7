use vstd::prelude::*;

verus! {

/// Restricts [`Slice`](crate::slice::Slice) to the slice types of this crate.
pub trait Sealed {
}

impl<T> Sealed for [T] {
}

impl Sealed for str {
}

} // verus!
