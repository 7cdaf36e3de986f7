use vstd::prelude::*;

use crate::slice::{OobIndex, Slice, SplitError, spec_split_error};

verus! {

/// A position within a buffer, given by its offset from the buffer's start.
#[derive(Clone, Copy)]
struct Location {
    index: usize,
}

impl Location {
    /// The location `offset` elements past the start of the buffer.
    fn new(offset: usize) -> (r: Location)
        ensures
            r.index == offset,
    {
        Location { index: offset }
    }

    /// The number of elements from `origin` to `self`; `origin` lies at or
    /// before `self`.
    fn offset_from(self, origin: Location) -> (r: usize)
        requires
            origin.index <= self.index,
        ensures
            r == self.index - origin.index,
    {
        self.index - origin.index
    }

    /// The location `amount` elements further on.
    fn advance(self, amount: usize) -> (r: Location)
        requires
            self.index + amount <= usize::MAX,
        ensures
            r.index == self.index + amount,
        no_unwind
    {
        Location { index: self.index + amount }
    }

    /// Move `amount` elements further on, returning the old location.
    fn advance_assign(&mut self, amount: usize) -> (r: Location)
        requires
            old(self).index + amount <= usize::MAX,
        ensures
            final(self).index == old(self).index + amount,
            r == *old(self),
        no_unwind
    {
        let old = *self;
        *self = self.advance(amount);
        old
    }

    /// The location `amount` elements back.
    fn rewind(self, amount: usize) -> (r: Location)
        requires
            amount <= self.index,
        ensures
            r.index == self.index - amount,
        no_unwind
    {
        Location { index: self.index - amount }
    }

    /// Move `amount` elements back, returning the new location.
    fn rewind_assign(&mut self, amount: usize) -> (r: Location)
        requires
            amount <= old(self).index,
        ensures
            final(self).index == old(self).index - amount,
            r == *final(self),
        no_unwind
    {
        *self = self.rewind(amount);
        *self
    }
}

/// The lengths of the buffers that a slide describes: the whole source,
/// the consumed part, and the remaining part.
#[derive(Debug, Clone, Copy, PartialEq, Eq, Structural)]
pub struct Lengths {
    source: usize,
    consumed: usize,
    remaining: usize,
}

impl Lengths {
    #[verifier::type_invariant]
    spec fn adds_up(self) -> bool {
        self.source == self.consumed + self.remaining
    }

    /// The length of the source buffer.
    pub closed spec fn spec_source(self) -> usize {
        self.source
    }

    /// The length of the consumed buffer.
    pub closed spec fn spec_consumed(self) -> usize {
        self.consumed
    }

    /// The length of the remaining buffer.
    pub closed spec fn spec_remaining(self) -> usize {
        self.remaining
    }

    /// Create the lengths; the caller ensures `source == consumed + remaining`.
    pub fn new_unchecked(source: usize, consumed: usize, remaining: usize) -> (r: Lengths)
        requires
            source == consumed + remaining,
        ensures
            r.spec_source() == source,
            r.spec_consumed() == consumed,
            r.spec_remaining() == remaining,
    {
        let this = Lengths { source, consumed, remaining };
        this.compiler_hints();
        this
    }

    /// States how the lengths relate: the source is the consumed and the
    /// remaining part together.
    pub fn compiler_hints(&self)
        ensures
            self.spec_source() == self.spec_consumed() + self.spec_remaining(),
            self.spec_consumed() == self.spec_source() - self.spec_remaining(),
            self.spec_remaining() == self.spec_source() - self.spec_consumed(),
    {
        proof {
            use_type_invariant(self);
        }
    }

    /// Return the source length.
    pub fn source(&self) -> (r: usize)
        ensures
            r == self.spec_source(),
            r == self.spec_consumed() + self.spec_remaining(),
    {
        self.compiler_hints();
        self.source
    }

    /// Return the consumed length.
    pub fn consumed(&self) -> (r: usize)
        ensures
            r == self.spec_consumed(),
            r <= self.spec_source(),
    {
        self.compiler_hints();
        self.consumed
    }

    /// Return the remaining length.
    pub fn remaining(&self) -> (r: usize)
        ensures
            r == self.spec_remaining(),
            r <= self.spec_source(),
    {
        self.compiler_hints();
        self.remaining
    }
}

/// A cursor over any [`Slice`] (`[T]` or `str`) that only ever rests on a
/// valid split index of its source: for a `str`, on a character boundary.
pub struct RawSlide<'a, S: Slice + ?Sized> {
    source: &'a S,
    cursor: Location,
    end: Location,
}

impl<'a, S: Slice + ?Sized> RawSlide<'a, S> {
    #[verifier::type_invariant]
    spec fn well_formed(self) -> bool {
        &&& self.end.index == self.source.spec_elems().len()
        &&& self.cursor.index <= self.end.index
        &&& S::spec_split_ok(self.source.spec_elems(), self.cursor.index as int)
    }

    /// The elements of the source.
    pub closed spec fn spec_elems(self) -> Seq<S::Elem> {
        self.source.spec_elems()
    }

    /// The position of the cursor.
    pub closed spec fn spec_cursor(self) -> nat {
        self.cursor.index as nat
    }

    /// The elements before the cursor.
    pub open spec fn spec_consumed(self) -> Seq<S::Elem> {
        self.spec_elems().take(self.spec_cursor() as int)
    }

    /// The elements after the cursor.
    pub open spec fn spec_remaining(self) -> Seq<S::Elem> {
        self.spec_elems().skip(self.spec_cursor() as int)
    }

    /// States what always holds of a slide: its source is a valid slice, and
    /// the cursor lies within it at a valid split index.
    pub fn compiler_hints(&self)
        ensures
            self.spec_cursor() <= self.spec_elems().len(),
            S::spec_valid_elems(self.spec_elems()),
            S::spec_split_ok(self.spec_elems(), self.spec_cursor() as int),
    {
        proof {
            use_type_invariant(self);
            self.source.lemma_valid();
        }
    }

    /// Create a slide over `slice` with the cursor at `offset`; the caller
    /// ensures `offset` is a valid split index of `slice`.
    pub fn new_unchecked(slice: &'a S, offset: usize) -> (r: Self)
        requires
            S::spec_split_ok(slice.spec_elems(), offset as int),
        ensures
            r.spec_elems() == slice.spec_elems(),
            r.spec_cursor() == offset,
    {
        proof {
            slice.lemma_valid();
            S::lemma_split_bounds(slice.spec_elems());
        }
        let len = slice.len();
        RawSlide { source: slice, cursor: Location::new(offset), end: Location::new(len) }
    }

    /// Try to create a slide over `slice` with the cursor at `offset`.
    ///
    /// Fails with the reason when `offset` is not a valid split index.
    pub fn new(slice: &'a S, offset: usize) -> (r: Result<Self, SplitError<S>>)
        ensures
            r is Ok <==> S::spec_split_ok(slice.spec_elems(), offset as int),
            r matches Ok(s) ==> s.spec_elems() == slice.spec_elems() && s.spec_cursor() == offset,
            r matches Err(e) ==> spec_split_error(slice.spec_elems(), offset, e),
    {
        match slice.validate_split_at(offset) {
            Ok(()) => Ok(Self::new_unchecked(slice, offset)),
            Err(error) => Err(error),
        }
    }

    /// Returns the entire source.
    pub fn entire_ref(&self) -> (r: &'a S)
        ensures
            r.spec_elems() == self.spec_elems(),
    {
        self.source
    }

    /// Returns the length of the entire source.
    pub fn entire_len(&self) -> (r: usize)
        ensures
            r == self.spec_elems().len(),
    {
        proof {
            use_type_invariant(self);
        }
        self.end.offset_from(Location::new(0))
    }

    /// Returns the elements before the cursor.
    pub fn consumed_ref(&self) -> (r: &'a S)
        ensures
            r.spec_elems() == self.spec_consumed(),
    {
        self.split_ref().0
    }

    /// Returns the number of elements before the cursor.
    pub fn consumed_len(&self) -> (r: usize)
        ensures
            r == self.spec_cursor(),
            r == self.spec_consumed().len(),
    {
        self.compiler_hints();
        self.cursor.offset_from(Location::new(0))
    }

    /// Returns the elements after the cursor.
    pub fn remaining_ref(&self) -> (r: &'a S)
        ensures
            r.spec_elems() == self.spec_remaining(),
    {
        self.split_ref().1
    }

    /// Returns the number of elements after the cursor.
    pub fn remaining_len(&self) -> (r: usize)
        ensures
            r == self.spec_elems().len() - self.spec_cursor(),
            r == self.spec_remaining().len(),
    {
        proof {
            use_type_invariant(self);
        }
        self.end.offset_from(self.cursor)
    }

    /// Returns the elements before and after the cursor.
    pub fn split_ref(&self) -> (r: (&'a S, &'a S))
        ensures
            r.0.spec_elems() == self.spec_consumed(),
            r.1.spec_elems() == self.spec_remaining(),
    {
        self.compiler_hints();
        self.source.split_at_valid(self.cursor.index)
    }

    /// Returns the lengths of the source, consumed and remaining elements.
    pub fn lengths(&self) -> (r: Lengths)
        ensures
            r.spec_source() == self.spec_elems().len(),
            r.spec_consumed() == self.spec_consumed().len(),
            r.spec_remaining() == self.spec_remaining().len(),
    {
        Lengths::new_unchecked(self.entire_len(), self.consumed_len(), self.remaining_len())
    }
}

/// The out-of-bounds index that looking `amount` elements behind a cursor at
/// `cursor` reports: `cursor - amount`, or `isize::MIN` if that lies below it.
pub open spec fn spec_behind_index(cursor: int, amount: int) -> int {
    if cursor - amount < isize::MIN {
        isize::MIN as int
    } else {
        cursor - amount
    }
}

impl<'a, S: Slice + ?Sized> RawSlide<'a, S> {
    /// Try to look at the next `amount` elements without moving the cursor.
    ///
    /// Fails, with the reason, when `amount` is not a valid split index of
    /// the remaining elements.
    pub fn try_peek_ahead(&self, amount: usize) -> (r: Result<&'a S, SplitError<S>>)
        ensures
            r is Ok <==> S::spec_split_ok(self.spec_remaining(), amount as int),
            r matches Ok(p) ==> p.spec_elems() == self.spec_remaining().take(amount as int),
            r matches Err(e) ==> spec_split_error(self.spec_remaining(), amount, e),
    {
        let remaining = self.remaining_ref();
        match remaining.validate_split_at(amount) {
            Ok(()) => Ok(remaining.split_at_valid(amount).0),
            Err(error) => Err(error),
        }
    }

    /// Try to look at the previous `amount` elements without moving the cursor.
    ///
    /// Fails when fewer than `amount` elements lie before the cursor, with an
    /// out-of-bounds error carrying the negative index that was asked for
    /// (saturated at `isize::MIN`), and when `consumed - amount` is not a
    /// valid split index of the consumed elements.
    pub fn try_peek_behind(&self, amount: usize) -> (r: Result<&'a S, SplitError<S>>)
        ensures
            r is Ok <==> amount <= self.spec_cursor() && S::spec_split_ok(
                self.spec_consumed(),
                self.spec_cursor() - amount,
            ),
            r matches Ok(p) ==> p.spec_elems() == self.spec_consumed().skip(
                self.spec_cursor() - amount,
            ),
            amount > self.spec_cursor() ==> (r matches Err(SplitError::OutOfBounds { index, len })
                && index.spec_value() == spec_behind_index(self.spec_cursor() as int, amount as int)
                && len == self.spec_cursor()),
            amount <= self.spec_cursor() ==> (r matches Err(e) ==> spec_split_error(
                self.spec_consumed(),
                (self.spec_cursor() - amount) as usize,
                e,
            )),
    {
        let consumed_len = self.consumed_len();
        if amount <= consumed_len {
            let consumed = self.consumed_ref();
            match consumed.validate_split_at(consumed_len - amount) {
                Ok(()) => Ok(consumed.split_at_valid(consumed_len - amount).1),
                Err(error) => Err(error),
            }
        } else {
            let wide: i128 = consumed_len as i128 - amount as i128;
            let index: isize = if wide < isize::MIN as i128 {
                isize::MIN
            } else {
                wide as isize
            };
            match OobIndex::from_negative(index) {
                Some(index) => Err(SplitError::OutOfBounds { index, len: consumed_len }),
                // `amount > consumed_len` makes `index` negative, so this arm is never taken.
                None => Ok(self.consumed_ref()),
            }
        }
    }

    /// Try to move the cursor over the next `amount` elements and return them.
    ///
    /// Fails, with the reason and leaving the cursor in place, when `amount`
    /// is not a valid split index of the remaining elements.
    pub fn try_advance(&mut self, amount: usize) -> (r: Result<&'a S, SplitError<S>>)
        ensures
            r is Ok <==> S::spec_split_ok(old(self).spec_remaining(), amount as int),
            r matches Ok(p) ==> p.spec_elems() == old(self).spec_remaining().take(amount as int),
            r matches Err(e) ==> spec_split_error(old(self).spec_remaining(), amount, e),
            r is Ok ==> final(self).spec_cursor() == old(self).spec_cursor() + amount,
            r is Err ==> final(self).spec_cursor() == old(self).spec_cursor(),
            final(self).spec_elems() == old(self).spec_elems(),
            final(self).spec_consumed().len() + final(self).spec_remaining().len()
                == final(self).spec_elems().len(),
    {
        proof {
            use_type_invariant(&*self);
        }
        self.compiler_hints();
        let result = self.try_peek_ahead(amount);
        match result {
            Ok(advanced) => {
                proof {
                    S::lemma_split_halves(self.spec_elems(), self.spec_cursor() as int);
                    S::lemma_split_bounds(self.spec_remaining());
                    assert(S::spec_split_ok(
                        self.spec_elems(),
                        self.spec_cursor() + amount,
                    ));
                }
                let _ = self.cursor.advance_assign(amount);
                Ok(advanced)
            },
            Err(error) => Err(error),
        }
    }

    /// Try to move the cursor back over the previous `amount` elements and
    /// return them.
    ///
    /// Fails, with the reason and leaving the cursor in place, in the cases
    /// that [`RawSlide::try_peek_behind`] describes.
    pub fn try_rewind(&mut self, amount: usize) -> (r: Result<&'a S, SplitError<S>>)
        ensures
            r is Ok <==> amount <= old(self).spec_cursor() && S::spec_split_ok(
                old(self).spec_consumed(),
                old(self).spec_cursor() - amount,
            ),
            r matches Ok(p) ==> p.spec_elems() == old(self).spec_consumed().skip(
                old(self).spec_cursor() - amount,
            ),
            amount > old(self).spec_cursor() ==> (r matches Err(
                SplitError::OutOfBounds { index, len },
            ) && index.spec_value() == spec_behind_index(
                old(self).spec_cursor() as int,
                amount as int,
            ) && len == old(self).spec_cursor()),
            amount <= old(self).spec_cursor() ==> (r matches Err(e) ==> spec_split_error(
                old(self).spec_consumed(),
                (old(self).spec_cursor() - amount) as usize,
                e,
            )),
            r is Ok ==> final(self).spec_cursor() == old(self).spec_cursor() - amount,
            r is Err ==> final(self).spec_cursor() == old(self).spec_cursor(),
            final(self).spec_elems() == old(self).spec_elems(),
            final(self).spec_consumed().len() + final(self).spec_remaining().len()
                == final(self).spec_elems().len(),
    {
        proof {
            use_type_invariant(&*self);
        }
        self.compiler_hints();
        let result = self.try_peek_behind(amount);
        match result {
            Ok(rewound) => {
                proof {
                    S::lemma_split_halves(self.spec_elems(), self.spec_cursor() as int);
                    assert(S::spec_split_ok(self.spec_elems(), self.spec_cursor() - amount));
                }
                let _ = self.cursor.rewind_assign(amount);
                Ok(rewound)
            },
            Err(error) => Err(error),
        }
    }
}

impl<'a, S: Slice + ?Sized> RawSlide<'a, S> {
    /// Look at the next `amount` elements without moving the cursor; the
    /// caller ensures `amount` is a valid split index of the remaining
    /// elements.
    pub fn peek_ahead(&self, amount: usize) -> (r: &'a S)
        requires
            S::spec_split_ok(self.spec_remaining(), amount as int),
        ensures
            r.spec_elems() == self.spec_remaining().take(amount as int),
    {
        match self.try_peek_ahead(amount) {
            Ok(peeked) => peeked,
            // The precondition rules this arm out.
            Err(_) => self.remaining_ref(),
        }
    }

    /// Look at the previous `amount` elements without moving the cursor; the
    /// caller ensures they exist and `consumed - amount` is a valid split
    /// index of the consumed elements.
    pub fn peek_behind(&self, amount: usize) -> (r: &'a S)
        requires
            amount <= self.spec_cursor(),
            S::spec_split_ok(self.spec_consumed(), self.spec_cursor() - amount),
        ensures
            r.spec_elems() == self.spec_consumed().skip(self.spec_cursor() - amount),
    {
        match self.try_peek_behind(amount) {
            Ok(peeked) => peeked,
            // The precondition rules this arm out.
            Err(_) => self.consumed_ref(),
        }
    }

    /// Move the cursor over the next `amount` elements and return them; the
    /// caller ensures `amount` is a valid split index of the remaining
    /// elements.
    pub fn advance(&mut self, amount: usize) -> (r: &'a S)
        requires
            S::spec_split_ok(old(self).spec_remaining(), amount as int),
        ensures
            r.spec_elems() == old(self).spec_remaining().take(amount as int),
            final(self).spec_cursor() == old(self).spec_cursor() + amount,
            final(self).spec_elems() == old(self).spec_elems(),
    {
        match self.try_advance(amount) {
            Ok(advanced) => advanced,
            // The precondition rules this arm out.
            Err(_) => self.remaining_ref(),
        }
    }

    /// Move the cursor back over the previous `amount` elements and return
    /// them; the caller ensures they exist and `consumed - amount` is a
    /// valid split index of the consumed elements.
    pub fn rewind(&mut self, amount: usize) -> (r: &'a S)
        requires
            amount <= old(self).spec_cursor(),
            S::spec_split_ok(old(self).spec_consumed(), old(self).spec_cursor() - amount),
        ensures
            r.spec_elems() == old(self).spec_consumed().skip(old(self).spec_cursor() - amount),
            final(self).spec_cursor() == old(self).spec_cursor() - amount,
            final(self).spec_elems() == old(self).spec_elems(),
    {
        match self.try_rewind(amount) {
            Ok(rewound) => rewound,
            // The precondition rules this arm out.
            Err(_) => self.consumed_ref(),
        }
    }

    /// Look at the next `amount` elements without a run-time failure path.
    pub fn peek_ahead_unchecked(&self, amount: usize) -> (r: &'a S)
        requires
            S::spec_split_ok(self.spec_remaining(), amount as int),
        ensures
            r.spec_elems() == self.spec_remaining().take(amount as int),
    {
        self.peek_ahead(amount)
    }

    /// Look at the previous `amount` elements without a run-time failure path.
    pub fn peek_behind_unchecked(&self, amount: usize) -> (r: &'a S)
        requires
            amount <= self.spec_cursor(),
            S::spec_split_ok(self.spec_consumed(), self.spec_cursor() - amount),
        ensures
            r.spec_elems() == self.spec_consumed().skip(self.spec_cursor() - amount),
    {
        self.peek_behind(amount)
    }

    /// Move the cursor forward by `amount` without a run-time failure path.
    pub fn advance_unchecked(&mut self, amount: usize) -> (r: &'a S)
        requires
            S::spec_split_ok(old(self).spec_remaining(), amount as int),
        ensures
            r.spec_elems() == old(self).spec_remaining().take(amount as int),
            final(self).spec_cursor() == old(self).spec_cursor() + amount,
            final(self).spec_elems() == old(self).spec_elems(),
    {
        self.advance(amount)
    }

    /// Move the cursor back by `amount` without a run-time failure path.
    pub fn rewind_unchecked(&mut self, amount: usize) -> (r: &'a S)
        requires
            amount <= old(self).spec_cursor(),
            S::spec_split_ok(old(self).spec_consumed(), old(self).spec_cursor() - amount),
        ensures
            r.spec_elems() == old(self).spec_consumed().skip(old(self).spec_cursor() - amount),
            final(self).spec_cursor() == old(self).spec_cursor() - amount,
            final(self).spec_elems() == old(self).spec_elems(),
    {
        self.rewind(amount)
    }
}

impl<'a, S: Slice + ?Sized> Clone for RawSlide<'a, S> {
    fn clone(&self) -> (r: Self)
        ensures
            r.spec_elems() == self.spec_elems(),
            r.spec_cursor() == self.spec_cursor(),
    {
        proof {
            use_type_invariant(self);
        }
        RawSlide { source: self.source, cursor: self.cursor, end: self.end }
    }
}

/// Wherever the cursor of a slide stands, the elements before it and those
/// after it together number as many as the whole source.
pub proof fn lemma_lengths_add_up<'a, S: Slice + ?Sized>(slide: RawSlide<'a, S>)
    requires
        slide.spec_cursor() <= slide.spec_elems().len(),
    ensures
        slide.spec_consumed().len() + slide.spec_remaining().len() == slide.spec_elems().len(),
{
}

/// After a successful advance by `n`, rewinding by `n` is always valid (for
/// a `str`, the old cursor is still a character boundary), puts the cursor
/// back where it was and hands back the very elements that the advance
/// passed over.
pub proof fn lemma_advance_then_rewind<'a, S: Slice + ?Sized>(
    before: RawSlide<'a, S>,
    after: RawSlide<'a, S>,
    n: nat,
)
    requires
        S::spec_valid_elems(before.spec_elems()),
        before.spec_cursor() <= before.spec_elems().len(),
        S::spec_split_ok(before.spec_elems(), before.spec_cursor() as int),
        S::spec_split_ok(before.spec_remaining(), n as int),
        after.spec_elems() == before.spec_elems(),
        after.spec_cursor() == before.spec_cursor() + n,
    ensures
        n <= after.spec_cursor(),
        S::spec_split_ok(after.spec_consumed(), after.spec_cursor() - n),
        after.spec_cursor() - n == before.spec_cursor(),
        after.spec_consumed().skip(after.spec_cursor() - n) == before.spec_remaining().take(
            n as int,
        ),
{
    S::lemma_split_halves(before.spec_elems(), before.spec_cursor() as int);
    S::lemma_split_bounds(before.spec_remaining());
    assert(S::spec_split_ok(before.spec_elems(), after.spec_cursor() as int));
    S::lemma_split_halves(after.spec_elems(), after.spec_cursor() as int);
    assert(S::spec_split_ok(after.spec_consumed(), before.spec_cursor() as int));
    assert(after.spec_consumed().skip(after.spec_cursor() - n) =~= before.spec_remaining().take(
        n as int,
    ));
}

/// After a successful rewind by `n`, advancing by `n` is always valid, puts
/// the cursor back where it was and hands back the very elements that the
/// rewind passed over.
pub proof fn lemma_rewind_then_advance<'a, S: Slice + ?Sized>(
    before: RawSlide<'a, S>,
    after: RawSlide<'a, S>,
    n: nat,
)
    requires
        S::spec_valid_elems(before.spec_elems()),
        before.spec_cursor() <= before.spec_elems().len(),
        S::spec_split_ok(before.spec_elems(), before.spec_cursor() as int),
        n <= before.spec_cursor(),
        S::spec_split_ok(before.spec_consumed(), before.spec_cursor() - n),
        after.spec_elems() == before.spec_elems(),
        after.spec_cursor() == before.spec_cursor() - n,
    ensures
        S::spec_split_ok(after.spec_remaining(), n as int),
        after.spec_cursor() + n == before.spec_cursor(),
        after.spec_remaining().take(n as int) == before.spec_consumed().skip(
            before.spec_cursor() - n,
        ),
{
    S::lemma_split_halves(before.spec_elems(), before.spec_cursor() as int);
    assert(S::spec_split_ok(before.spec_elems(), after.spec_cursor() as int));
    S::lemma_split_halves(after.spec_elems(), after.spec_cursor() as int);
    assert(S::spec_split_ok(after.spec_remaining(), n as int));
    assert(after.spec_remaining().take(n as int) =~= before.spec_consumed().skip(
        before.spec_cursor() - n,
    ));
}

} // verus!
