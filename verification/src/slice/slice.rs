use vstd::prelude::*;

use core::convert::Infallible;

use crate::slice::{AsElemsError, FromElemsError, OobIndex, Slice, SplitError};
use crate::util::split_at_mut_in_place;

verus! {

impl<T> Slice for [T] {
    type Elem = T;

    type FromElemsErr = Infallible;

    type AsElemsErr = Infallible;

    type SplitErr = Infallible;

    open spec fn spec_elems(&self) -> Seq<T> {
        self@
    }

    /// Every sequence of elements is a valid slice.
    open spec fn spec_valid_elems(elems: Seq<T>) -> bool {
        true
    }

    /// The elements of a slice may always be borrowed mutably.
    open spec fn spec_elems_mut_ok() -> bool {
        true
    }

    /// A slice may be split at every index up to its length.
    open spec fn spec_split_ok(elems: Seq<T>, index: int) -> bool {
        0 <= index <= elems.len()
    }

    /// A slice never reports an error other than out-of-bounds.
    open spec fn spec_split_other(index: usize) -> Infallible {
        arbitrary()
    }

    /// A slice never reports an error other than out-of-bounds.
    open spec fn spec_split_error_index(error: Infallible) -> usize {
        0
    }

    proof fn lemma_valid(&self) {
    }

    proof fn lemma_split_bounds(elems: Seq<T>) {
    }

    proof fn lemma_split_halves(elems: Seq<T>, c: int) {
    }

    /// Returns the slice's length.
    fn len(&self) -> (r: usize) {
        <[T]>::len(self)
    }

    /// Returns whether the slice is empty.
    fn is_empty(&self) -> (r: bool) {
        <[T]>::is_empty(self)
    }

    /// Always returns `Ok(elems)`.
    fn try_from_elems(elems: &[T]) -> (r: Result<&[T], FromElemsError<[T]>>) {
        Ok(elems)
    }

    /// Always returns `elems`.
    fn from_elems(elems: &[T]) -> (r: &[T]) {
        elems
    }

    /// Always returns `elems`.
    fn from_elems_unchecked(elems: &[T]) -> (r: &[T]) {
        elems
    }

    /// Always returns `Ok(elems)`.
    fn try_from_elems_mut(elems: &mut [T]) -> (r: Result<&mut [T], FromElemsError<[T]>>) {
        Ok(elems)
    }

    /// Always returns `elems`.
    fn from_elems_mut(elems: &mut [T]) -> (r: &mut [T]) {
        elems
    }

    /// Always returns `Ok(self)`.
    fn try_as_elems(&self) -> (r: Result<&[T], AsElemsError<[T]>>) {
        Ok(self)
    }

    /// Always returns `self`.
    fn as_elems(&self) -> (r: &[T]) {
        self
    }

    /// Always returns `self`.
    fn as_elems_unchecked(&self) -> (r: &[T]) {
        self
    }

    /// Always returns `Ok(self)`.
    fn try_as_elems_mut(&mut self) -> (r: Result<&mut [T], AsElemsError<[T]>>) {
        Ok(self)
    }

    /// A slice may be split at `index` exactly when `index <= len`.
    fn validate_split_at(&self, index: usize) -> (r: Result<(), SplitError<[T]>>) {
        let len = <[T]>::len(self);
        if index <= len {
            Ok(())
        } else {
            match OobIndex::from_positive(index) {
                Some(oob) => Err(SplitError::OutOfBounds { index: oob, len }),
                // `index > len` makes `index` positive, so this arm is never taken.
                None => Ok(()),
            }
        }
    }

    fn split_at_valid(&self, index: usize) -> (r: (&[T], &[T])) {
        <[T]>::split_at(self, index)
    }

    fn split_at_mut_valid(&mut self, index: usize) -> (r: (&mut [T], &mut [T])) {
        split_at_mut_in_place(self, index)
    }

    /// A slice never reports an error other than out-of-bounds.
    fn split_error_index(error: &Infallible) -> (r: usize) {
        0
    }
}

} // verus!
