use vstd::prelude::*;
use vstd::string::StringSliceAdditionalSpecFns;
use vstd::utf8::{is_char_boundary, is_continuation_byte, valid_utf8, valid_utf8_split};

use core::cmp::Ordering;
use core::str::Utf8Error;
use vstd::std_specs::cmp::{PartialEqSpecImpl, PartialOrdSpecImpl};

use crate::bounds::SliceRange;
use crate::range::IndexRange;
use crate::slice::{AsElemsError, FromElemsError, OobIndex, Slice, SplitError};
use crate::slice::error::{out_of_bounds_text, spec_out_of_bounds_text};
use crate::str::is_utf8_char_boundary;
use crate::util::{decimal_string, spec_decimal};
use vstd::string::StringExecFns;

verus! {

broadcast use {
    vstd::utf8::encode_utf8_valid_utf8,
    vstd::utf8::is_char_boundary_iff_not_is_continuation_byte,
    vstd::utf8::is_char_boundary_start_end_of_seq,
};

#[verifier::external_type_specification]
#[verifier::external_body]
pub struct ExUtf8Error(Utf8Error);

/// Calls `core::str::from_utf8`, which, as its documentation states,
/// returns the string whose bytes are `bytes` exactly when `bytes` is
/// well-formed UTF-8, and an error otherwise. What the error holds is not
/// stated.
#[verifier::external_body]
fn str_from_utf8(bytes: &[u8]) -> (r: Result<&str, Utf8Error>)
    ensures
        r is Ok <==> valid_utf8(bytes@),
        r matches Ok(s) ==> s.spec_bytes() == bytes@,
{
    core::str::from_utf8(bytes)
}

/// Calls `core::str::from_utf8_mut`, which, as its documentation states,
/// returns the mutable string over `bytes` exactly when `bytes` is
/// well-formed UTF-8, and an error otherwise. The contract adds that the
/// string and the bytes are the same buffer: once the borrow ends the bytes
/// are those of the string, and on failure they are untouched. What the
/// error holds is not stated.
#[verifier::external_body]
fn str_from_utf8_mut(bytes: &mut [u8]) -> (r: Result<&mut str, Utf8Error>)
    ensures
        r is Ok <==> valid_utf8(old(bytes)@),
        r matches Ok(s) ==> s.spec_bytes() == old(bytes)@ && final(bytes)@ == final(s).spec_bytes(),
        r is Err ==> final(bytes)@ == old(bytes)@,
{
    core::str::from_utf8_mut(bytes)
}

/// Calls `str::split_at_mut`, which, as its documentation states, divides
/// one mutable string slice into the part before `mid` and the part from
/// `mid` on, and panics unless `mid` is on a character boundary. The
/// contract adds that once both borrows end, the string holds the bytes of
/// the first part followed by those of the second: the parts are the two
/// halves of the same buffer.
#[verifier::external_body]
fn str_split_at_mut(s: &mut str, mid: usize) -> (r: (&mut str, &mut str))
    requires
        is_char_boundary(old(s).spec_bytes(), mid as int),
    ensures
        r.0.spec_bytes() == old(s).spec_bytes().take(mid as int),
        r.1.spec_bytes() == old(s).spec_bytes().skip(mid as int),
        final(s).spec_bytes() == final(r.0).spec_bytes() + final(r.1).spec_bytes(),
{
    s.split_at_mut(mid)
}

/// An error for attempting to get the inner elements of a `str`.
///
/// This only affects mutable borrows.
#[derive(Debug, Clone, Copy, Eq, Ord, Hash)]
pub enum StrAsElemsError {
    /// It is not safe to get a mutable reference to the inner `[u8]` of a `str`.
    UnsafeToMutablyBorrow,
}

/// An error that occurs when trying to split a `str`.
///
/// This does not include out-of-bounds errors.
#[derive(Debug, Clone, Copy, Eq, Ord, Hash)]
pub enum StrSplitError {
    /// The byte at `index` is not a UTF-8 character boundary.
    InvalidCharBoundary {
        /// The index of the offending byte.
        index: usize,
    },
}

impl PartialEq for StrAsElemsError {
    fn eq(&self, other: &Self) -> (r: bool) {
        match (self, other) {
            (StrAsElemsError::UnsafeToMutablyBorrow, StrAsElemsError::UnsafeToMutablyBorrow) => true,
        }
    }
}

impl PartialEqSpecImpl for StrAsElemsError {
    open spec fn obeys_eq_spec() -> bool {
        true
    }

    /// There is one such error, so any two are equal.
    open spec fn eq_spec(&self, other: &Self) -> bool {
        true
    }
}

impl PartialOrd for StrAsElemsError {
    fn partial_cmp(&self, other: &Self) -> (r: Option<Ordering>) {
        match (self, other) {
            (StrAsElemsError::UnsafeToMutablyBorrow, StrAsElemsError::UnsafeToMutablyBorrow) => Some(
                Ordering::Equal,
            ),
        }
    }
}

impl PartialOrdSpecImpl for StrAsElemsError {
    open spec fn obeys_partial_cmp_spec() -> bool {
        true
    }

    /// There is one such error, so any two compare equal.
    open spec fn partial_cmp_spec(&self, other: &Self) -> Option<Ordering> {
        Some(Ordering::Equal)
    }
}

impl PartialEq for StrSplitError {
    fn eq(&self, other: &Self) -> (r: bool) {
        self.index() == other.index()
    }
}

impl PartialEqSpecImpl for StrSplitError {
    open spec fn obeys_eq_spec() -> bool {
        true
    }

    /// Two such errors are equal when they report the same index.
    open spec fn eq_spec(&self, other: &Self) -> bool {
        self->index == other->index
    }
}

impl PartialOrd for StrSplitError {
    fn partial_cmp(&self, other: &Self) -> (r: Option<Ordering>) {
        let (left, right) = (self.index(), other.index());
        if left < right {
            Some(Ordering::Less)
        } else if right < left {
            Some(Ordering::Greater)
        } else {
            Some(Ordering::Equal)
        }
    }
}

impl PartialOrdSpecImpl for StrSplitError {
    open spec fn obeys_partial_cmp_spec() -> bool {
        true
    }

    /// Two such errors order by the index they report.
    open spec fn partial_cmp_spec(&self, other: &Self) -> Option<Ordering> {
        Some(
            if self->index < other->index {
                Ordering::Less
            } else if other->index < self->index {
                Ordering::Greater
            } else {
                Ordering::Equal
            },
        )
    }
}

impl StrAsElemsError {
    /// The message with which a failed request for the bytes panics.
    pub fn message(&self) -> (r: &'static str)
        ensures
            r@ == "it is unsafe to mutably borrow the underlying bytes of a string"@,
    {
        match self {
            StrAsElemsError::UnsafeToMutablyBorrow => {
                "it is unsafe to mutably borrow the underlying bytes of a string"
            },
        }
    }

    /// The text that describes this error.
    pub open spec fn spec_to_string(self) -> Seq<char> {
        "it is unsafe to mutably borrow the underlying bytes of a string"@
    }

    /// Describes this error.
    pub fn to_string(&self) -> (r: String)
        ensures
            r@ == self.spec_to_string(),
    {
        self.message().to_owned()
    }
}

impl FromElemsError<str> {
    /// The message with which a failed conversion from bytes panics.
    pub fn message(&self) -> (r: &'static str)
        ensures
            r@ == "provided string contains invalid UTF-8"@,
    {
        "provided string contains invalid UTF-8"
    }
}

impl AsElemsError<str> {
    /// Describes this error, as the error it wraps does.
    pub fn to_string(&self) -> (r: String)
        ensures
            r@ == self.0.spec_to_string(),
    {
        self.0.to_string()
    }
}

impl StrSplitError {
    /// The message with which a failed split panics.
    pub fn message(&self) -> (r: &'static str)
        ensures
            r@ == "the byte at `index` is not a valid UTF-8 character boundary"@,
    {
        match self {
            StrSplitError::InvalidCharBoundary { .. } => {
                "the byte at `index` is not a valid UTF-8 character boundary"
            },
        }
    }

    /// Returns the index that caused the error.
    pub fn index(&self) -> (r: usize)
        ensures
            *self matches StrSplitError::InvalidCharBoundary { index } && r == index,
    {
        match self {
            StrSplitError::InvalidCharBoundary { index } => *index,
        }
    }
}

impl StrSplitError {
    /// The text that describes this error, with the index it holds.
    pub open spec fn spec_to_string(self) -> Seq<char> {
        match self {
            StrSplitError::InvalidCharBoundary { index } => "the byte at index "@ + spec_decimal(
                index as int,
            ) + " is not a valid UTF-8 character boundary"@,
        }
    }

    /// Describes this error, with the index it holds.
    pub fn to_string(&self) -> (r: String)
        ensures
            r@ == self.spec_to_string(),
    {
        match self {
            StrSplitError::InvalidCharBoundary { index } => {
                let mut text = "the byte at index ".to_owned();
                text.append(decimal_string(*index as i128).as_str());
                text.append(" is not a valid UTF-8 character boundary");
                text
            },
        }
    }
}

impl SplitError<str> {
    /// The text that describes this error.
    pub open spec fn spec_to_string(self) -> Seq<char> {
        match self {
            SplitError::OutOfBounds { index, len } => spec_out_of_bounds_text(index, len),
            SplitError::Other(error) => error.spec_to_string(),
        }
    }

    /// Describes this error.
    pub fn to_string(&self) -> (r: String)
        ensures
            r@ == self.spec_to_string(),
    {
        match self {
            SplitError::OutOfBounds { index, len } => out_of_bounds_text(index, *len),
            SplitError::Other(error) => error.to_string(),
        }
    }
}

/// The bytes `start..end` of `s` as a string; the caller ensures that both
/// ends are character boundaries.
pub(crate) fn str_range(s: &str, start: usize, end: usize) -> (r: &str)
    requires
        start <= end,
        is_char_boundary(s.spec_bytes(), start as int),
        is_char_boundary(s.spec_bytes(), end as int),
    ensures
        r.spec_bytes() == s.spec_bytes().subrange(start as int, end as int),
{
    let ghost bytes = s.spec_bytes();
    proof {
        s.lemma_valid();
        <str as Slice>::lemma_split_bounds(bytes);
        <str as Slice>::lemma_split_halves(bytes, end as int);
        assert(bytes.take(end as int) =~= bytes.subrange(0, end as int));
    }
    let (head, _) = s.split_at(end);
    proof {
        assert(head.spec_bytes() =~= bytes.take(end as int));
        assert(<str as Slice>::spec_split_ok(bytes.take(end as int), start as int));
        assert(is_char_boundary(head.spec_bytes(), start as int));
    }
    let (_, r) = head.split_at(start);
    proof {
        assert(r.spec_bytes() =~= bytes.subrange(start as int, end as int));
    }
    r
}

impl core::ops::Index<SliceRange> for str {
    type Output = str;

    /// The bytes in `index` as a string; the caller ensures that both ends
    /// of `index` are character boundaries.
    fn index(&self, index: SliceRange) -> (r: &str)
        ensures
            r.spec_bytes() == self.spec_bytes().subrange(
                index.spec_start() as int,
                index.spec_end() as int,
            ),
    {
        str_range(self, index.start(), index.end())
    }
}

impl vstd::std_specs::core::IndexSpecImpl<SliceRange> for str {
    /// A range may index a string when both its ends are character
    /// boundaries.
    open spec fn index_req(&self, index: &SliceRange) -> bool {
        &&& is_char_boundary(self.spec_bytes(), index.spec_start() as int)
        &&& is_char_boundary(self.spec_bytes(), index.spec_end() as int)
    }
}

impl<'a> core::ops::Index<&'a SliceRange> for str {
    type Output = str;

    /// The bytes in `index` as a string; the caller ensures that both ends
    /// of `index` are character boundaries.
    fn index(&self, index: &'a SliceRange) -> (r: &str)
        ensures
            r.spec_bytes() == self.spec_bytes().subrange(
                index.spec_start() as int,
                index.spec_end() as int,
            ),
    {
        str_range(self, index.start(), index.end())
    }
}

impl<'a> vstd::std_specs::core::IndexSpecImpl<&'a SliceRange> for str {
    /// A range may index a string when both its ends are character
    /// boundaries.
    open spec fn index_req(&self, index: &&'a SliceRange) -> bool {
        &&& is_char_boundary(self.spec_bytes(), index.spec_start() as int)
        &&& is_char_boundary(self.spec_bytes(), index.spec_end() as int)
    }
}

impl core::ops::Index<IndexRange> for str {
    type Output = str;

    /// The bytes in `index` as a string; the caller ensures that both ends
    /// of `index` are character boundaries.
    fn index(&self, index: IndexRange) -> (r: &str)
        ensures
            r.spec_bytes() == self.spec_bytes().subrange(
                index.spec_start() as int,
                index.spec_end() as int,
            ),
    {
        str_range(self, index.start(), index.end())
    }
}

impl vstd::std_specs::core::IndexSpecImpl<IndexRange> for str {
    /// A range may index a string when both its ends are character
    /// boundaries.
    open spec fn index_req(&self, index: &IndexRange) -> bool {
        &&& is_char_boundary(self.spec_bytes(), index.spec_start() as int)
        &&& is_char_boundary(self.spec_bytes(), index.spec_end() as int)
    }
}

impl Slice for str {
    type Elem = u8;

    type FromElemsErr = Utf8Error;

    type AsElemsErr = StrAsElemsError;

    type SplitErr = StrSplitError;

    /// The UTF-8 encoding of the string.
    open spec fn spec_elems(&self) -> Seq<u8> {
        self.spec_bytes()
    }

    /// Bytes form a string exactly when they are well-formed UTF-8.
    open spec fn spec_valid_elems(elems: Seq<u8>) -> bool {
        valid_utf8(elems)
    }

    /// The bytes of a string may not be borrowed mutably.
    open spec fn spec_elems_mut_ok() -> bool {
        false
    }

    /// A string may be split exactly at its character boundaries.
    open spec fn spec_split_ok(elems: Seq<u8>, index: int) -> bool {
        is_char_boundary(elems, index)
    }

    open spec fn spec_split_other(index: usize) -> StrSplitError {
        StrSplitError::InvalidCharBoundary { index }
    }

    open spec fn spec_split_error_index(error: StrSplitError) -> usize {
        match error {
            StrSplitError::InvalidCharBoundary { index } => index,
        }
    }

    proof fn lemma_valid(&self) {
    }

    proof fn lemma_split_bounds(elems: Seq<u8>) {
        assert forall|i: int| #[trigger] is_char_boundary(elems, i) implies 0 <= i
            <= elems.len() by {
            reveal_with_fuel(is_char_boundary, 1);
        }
    }

    proof fn lemma_split_halves(elems: Seq<u8>, c: int) {
        Self::lemma_split_bounds(elems);
        assert(Self::spec_split_ok(elems, c));
        assert(0 <= c <= elems.len());
        valid_utf8_split(elems, c);
        assert(elems.take(c) =~= elems.subrange(0, c));
        assert(elems.skip(c) =~= elems.subrange(c, elems.len() as int));
        let head = elems.take(c);
        let tail = elems.skip(c);
        assert(valid_utf8(head));
        assert(valid_utf8(tail));
        assert forall|k: int| 0 <= k <= c implies (#[trigger] is_char_boundary(head, k)
            <==> is_char_boundary(elems, k)) by {
            if k == 0 {
                assert(is_char_boundary(head, 0));
                assert(is_char_boundary(elems, 0));
            } else if k == c {
                assert(is_char_boundary(head, head.len() as int));
            } else {
                assert(head[k] == elems[k]);
                assert(is_char_boundary(head, k) <==> !is_continuation_byte(head[k]));
                assert(is_char_boundary(elems, k) <==> !is_continuation_byte(elems[k]));
            }
        }
        assert forall|a: int| 0 <= a <= elems.len() - c implies (#[trigger] is_char_boundary(tail, a)
            <==> is_char_boundary(elems, c + a)) by {
            if a == 0 {
                assert(is_char_boundary(tail, 0));
            } else if a == elems.len() - c {
                assert(is_char_boundary(tail, tail.len() as int));
                assert(is_char_boundary(elems, elems.len() as int));
            } else {
                assert(tail[a] == elems[c + a]);
                assert(is_char_boundary(tail, a) <==> !is_continuation_byte(tail[a]));
                assert(is_char_boundary(elems, c + a) <==> !is_continuation_byte(elems[c + a]));
            }
        }
    }

    /// Returns the string's length, in bytes.
    fn len(&self) -> (r: usize) {
        self.as_bytes().len()
    }

    /// Returns whether the string is empty.
    fn is_empty(&self) -> (r: bool) {
        self.as_bytes().len() == 0
    }

    /// Returns an error if the bytes are not well-formed UTF-8.
    fn try_from_elems(bytes: &[u8]) -> (r: Result<&str, FromElemsError<str>>) {
        match str_from_utf8(bytes) {
            Ok(string) => Ok(string),
            Err(error) => Err(FromElemsError(error)),
        }
    }

    fn from_elems(bytes: &[u8]) -> (r: &str) {
        match str_from_utf8(bytes) {
            Ok(string) => string,
            // The precondition rules this arm out.
            Err(_) => "",
        }
    }

    fn from_elems_unchecked(bytes: &[u8]) -> (r: &str) {
        Self::from_elems(bytes)
    }

    /// Returns an error if the bytes are not well-formed UTF-8.
    fn try_from_elems_mut(bytes: &mut [u8]) -> (r: Result<&mut str, FromElemsError<str>>) {
        match str_from_utf8_mut(bytes) {
            Ok(string) => Ok(string),
            Err(error) => Err(FromElemsError(error)),
        }
    }

    fn from_elems_mut(bytes: &mut [u8]) -> (r: &mut str) {
        str_from_utf8_mut(bytes).unwrap()
    }

    /// Always returns `Ok(self.as_bytes())`.
    fn try_as_elems(&self) -> (r: Result<&[u8], AsElemsError<str>>) {
        Ok(self.as_bytes())
    }

    /// Always returns `self.as_bytes()`.
    fn as_elems(&self) -> (r: &[u8]) {
        self.as_bytes()
    }

    /// Always returns `self.as_bytes()`.
    fn as_elems_unchecked(&self) -> (r: &[u8]) {
        self.as_bytes()
    }

    /// Always fails: mutating the bytes could break UTF-8 well-formedness.
    fn try_as_elems_mut(&mut self) -> (r: Result<&mut [u8], AsElemsError<str>>)
        ensures
            r matches Err(e) && e.0 == StrAsElemsError::UnsafeToMutablyBorrow,
    {
        Err(AsElemsError(StrAsElemsError::UnsafeToMutablyBorrow))
    }

    /// A string may be split at `index` when `index` is `0`, the length, or
    /// the index of a byte that starts a character.
    fn validate_split_at(&self, index: usize) -> (r: Result<(), SplitError<str>>) {
        let bytes = self.as_bytes();
        let len = bytes.len();
        if index == 0 {
            Ok(())
        } else if index > len {
            match OobIndex::from_positive(index) {
                Some(oob) => Err(SplitError::OutOfBounds { index: oob, len }),
                // `index > len` makes `index` positive, so this arm is never taken.
                None => Ok(()),
            }
        } else if index == len {
            Ok(())
        } else if is_utf8_char_boundary(bytes[index]) {
            Ok(())
        } else {
            Err(SplitError::Other(StrSplitError::InvalidCharBoundary { index }))
        }
    }

    fn split_at_valid(&self, index: usize) -> (r: (&str, &str)) {
        <str>::split_at(self, index)
    }

    fn split_at_mut_valid(&mut self, index: usize) -> (r: (&mut str, &mut str)) {
        str_split_at_mut(self, index)
    }

    fn split_error_index(error: &StrSplitError) -> (r: usize) {
        error.index()
    }
}

} // verus!
