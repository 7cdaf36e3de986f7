use vstd::prelude::*;

verus! {

/// A cursor over a shared slice.
///
/// The cursor sits at `offset`, between the `consumed` elements before it
/// and the `remaining` elements after it; `offset` never exceeds the length
/// of the source slice.
#[derive(PartialEq, Eq)]
pub struct Slide<'a, T> {
    offset: usize,
    source: &'a [T],
}

impl<'a, T> Slide<'a, T> {
    #[verifier::type_invariant]
    spec fn in_bounds(self) -> bool {
        self.offset <= self.source@.len()
    }

    /// The position of the cursor.
    pub closed spec fn spec_offset(self) -> nat {
        self.offset as nat
    }

    /// The elements of the source slice.
    pub closed spec fn spec_source(self) -> Seq<T> {
        self.source@
    }

    /// The elements before the cursor.
    pub open spec fn spec_consumed(self) -> Seq<T> {
        self.spec_source().take(self.spec_offset() as int)
    }

    /// The elements after the cursor.
    pub open spec fn spec_remaining(self) -> Seq<T> {
        self.spec_source().skip(self.spec_offset() as int)
    }

    /// Create a new [`Slide`] over `source` with its cursor at `offset`.
    ///
    /// Returns `None` if `offset > source.len()`.
    pub fn from_parts(source: &'a [T], offset: usize) -> (r: Option<Self>)
        ensures
            r is Some <==> offset <= source@.len(),
            r matches Some(s) ==> s.spec_offset() == offset && s.spec_source() == source@,
    {
        if offset <= source.len() {
            Some(Slide { offset, source })
        } else {
            None
        }
    }

    /// Create a new [`Slide`] over `source` with its cursor at the start.
    pub fn new(source: &'a [T]) -> (r: Self)
        ensures
            r.spec_offset() == 0,
            r.spec_source() == source@,
    {
        Slide { offset: 0, source }
    }

    /// States that the cursor lies within the source slice.
    pub fn compiler_hints(&self)
        ensures
            self.spec_offset() <= self.spec_source().len(),
    {
        proof {
            use_type_invariant(self);
        }
    }

    /// Returns the source slice and the offset of the cursor.
    pub fn parts(&self) -> (r: (&'a [T], usize))
        ensures
            r.0@ == self.spec_source(),
            r.1 == self.spec_offset(),
            r.1 <= r.0@.len(),
    {
        self.compiler_hints();
        (self.source, self.offset)
    }

    /// Returns the consumed and remaining slices.
    pub fn split(&self) -> (r: (&'a [T], &'a [T]))
        ensures
            r.0@ == self.spec_consumed(),
            r.1@ == self.spec_remaining(),
            r.0@ + r.1@ == self.spec_source(),
    {
        let (source, offset) = self.parts();
        let r = source.split_at(offset);
        proof {
            assert(r.0@ + r.1@ =~= self.spec_source());
        }
        r
    }

    /// Returns the elements before the cursor.
    pub fn consumed(&self) -> (r: &'a [T])
        ensures
            r@ == self.spec_consumed(),
    {
        self.split().0
    }

    /// Returns the elements after the cursor.
    pub fn remaining(&self) -> (r: &'a [T])
        ensures
            r@ == self.spec_remaining(),
    {
        self.split().1
    }

    /// Returns the source slice.
    pub fn source(&self) -> (r: &'a [T])
        ensures
            r@ == self.spec_source(),
    {
        self.parts().0
    }

    /// Returns the offset of the cursor.
    pub fn offset(&self) -> (r: usize)
        ensures
            r == self.spec_offset(),
            r <= self.spec_source().len(),
    {
        self.parts().1
    }

    /// Move the cursor to `offset` without a run-time check; the caller
    /// ensures `offset <= self.source().len()`.
    pub fn set_offset_unchecked(&mut self, offset: usize)
        requires
            offset <= old(self).spec_source().len(),
        ensures
            final(self).spec_offset() == offset,
            final(self).spec_source() == old(self).spec_source(),
    {
        self.offset = offset;
    }

    /// Move the cursor to `offset` if it lies within the source slice.
    ///
    /// Returns whether the cursor moved; when it did not, nothing changed.
    pub fn set_offset_checked(&mut self, offset: usize) -> (r: bool)
        ensures
            r == (offset <= old(self).spec_source().len()),
            r ==> final(self).spec_offset() == offset,
            !r ==> final(self).spec_offset() == old(self).spec_offset(),
            final(self).spec_source() == old(self).spec_source(),
    {
        if offset <= self.source().len() {
            self.set_offset_unchecked(offset);
            true
        } else {
            false
        }
    }

    /// Move the cursor to `offset`; the caller ensures
    /// `offset <= self.source().len()`.
    pub fn set_offset(&mut self, offset: usize)
        requires
            offset <= old(self).spec_source().len(),
        ensures
            final(self).spec_offset() == offset,
            final(self).spec_source() == old(self).spec_source(),
    {
        let moved = self.set_offset_checked(offset);
        assert(moved);
    }

    /// Returns the next `n` elements without moving the cursor; the caller
    /// ensures `n <= self.remaining().len()`.
    pub fn peek_unchecked(&self, n: usize) -> (r: &'a [T])
        requires
            n <= self.spec_remaining().len(),
        ensures
            r@ == self.spec_remaining().take(n as int),
    {
        self.remaining().split_at(n).0
    }

    /// Returns the next `n` elements without moving the cursor.
    ///
    /// Returns `None` if `n > self.remaining().len()`.
    pub fn peek_checked(&self, n: usize) -> (r: Option<&'a [T]>)
        ensures
            r is Some <==> n <= self.spec_remaining().len(),
            r matches Some(p) ==> p@ == self.spec_remaining().take(n as int),
    {
        if n <= self.remaining().len() {
            Some(self.peek_unchecked(n))
        } else {
            None
        }
    }

    /// Returns the next `n` elements without moving the cursor; the caller
    /// ensures `n <= self.remaining().len()`.
    pub fn peek(&self, n: usize) -> (r: &'a [T])
        requires
            n <= self.spec_remaining().len(),
        ensures
            r@ == self.spec_remaining().take(n as int),
    {
        self.peek_checked(n).unwrap()
    }

    /// Returns the previous `n` elements without moving the cursor; the
    /// caller ensures `n <= self.consumed().len()`.
    pub fn peek_back_unchecked(&self, n: usize) -> (r: &'a [T])
        requires
            n <= self.spec_consumed().len(),
        ensures
            r@ == self.spec_consumed().skip(self.spec_consumed().len() - n),
    {
        let consumed = self.consumed();
        consumed.split_at(consumed.len() - n).1
    }

    /// Returns the previous `n` elements without moving the cursor.
    ///
    /// Returns `None` if `n > self.consumed().len()`.
    pub fn peek_back_checked(&self, n: usize) -> (r: Option<&'a [T]>)
        ensures
            r is Some <==> n <= self.spec_consumed().len(),
            r matches Some(p) ==> p@ == self.spec_consumed().skip(self.spec_consumed().len() - n),
    {
        if n <= self.consumed().len() {
            Some(self.peek_back_unchecked(n))
        } else {
            None
        }
    }

    /// Returns the previous `n` elements without moving the cursor; the
    /// caller ensures `n <= self.consumed().len()`.
    pub fn peek_back(&self, n: usize) -> (r: &'a [T])
        requires
            n <= self.spec_consumed().len(),
        ensures
            r@ == self.spec_consumed().skip(self.spec_consumed().len() - n),
    {
        self.peek_back_checked(n).unwrap()
    }

    /// Move the cursor forward over the next `n` elements and return them;
    /// the caller ensures `n <= self.remaining().len()`.
    pub fn advance_unchecked(&mut self, n: usize) -> (r: &'a [T])
        requires
            n <= old(self).spec_remaining().len(),
        ensures
            final(self).spec_offset() == old(self).spec_offset() + n,
            final(self).spec_source() == old(self).spec_source(),
            r@ == old(self).spec_remaining().take(n as int),
    {
        self.compiler_hints();
        let _len = self.source.len();
        self.offset = self.offset + n;
        let r = self.peek_back_unchecked(n);
        proof {
            assert(r@ =~= old(self).spec_remaining().take(n as int));
        }
        r
    }

    /// Move the cursor forward over the next `n` elements and return them.
    ///
    /// Returns `None`, and leaves the cursor in place, if
    /// `n > self.remaining().len()`.
    pub fn advance_checked(&mut self, n: usize) -> (r: Option<&'a [T]>)
        ensures
            r is Some <==> n <= old(self).spec_remaining().len(),
            r is Some ==> final(self).spec_offset() == old(self).spec_offset() + n,
            r is None ==> final(self).spec_offset() == old(self).spec_offset(),
            final(self).spec_source() == old(self).spec_source(),
            r matches Some(p) ==> p@ == old(self).spec_remaining().take(n as int),
    {
        if n <= self.remaining().len() {
            Some(self.advance_unchecked(n))
        } else {
            None
        }
    }

    /// Move the cursor forward over the next `n` elements and return them;
    /// the caller ensures `n <= self.remaining().len()`.
    pub fn advance(&mut self, n: usize) -> (r: &'a [T])
        requires
            n <= old(self).spec_remaining().len(),
        ensures
            final(self).spec_offset() == old(self).spec_offset() + n,
            final(self).spec_source() == old(self).spec_source(),
            r@ == old(self).spec_remaining().take(n as int),
    {
        self.advance_checked(n).unwrap()
    }

    /// Move the cursor back over the previous `n` elements and return them;
    /// the caller ensures `n <= self.consumed().len()`.
    pub fn rewind_unchecked(&mut self, n: usize) -> (r: &'a [T])
        requires
            n <= old(self).spec_consumed().len(),
        ensures
            final(self).spec_offset() == old(self).spec_offset() - n,
            final(self).spec_source() == old(self).spec_source(),
            r@ == old(self).spec_consumed().skip(old(self).spec_consumed().len() - n),
    {
        self.compiler_hints();
        self.offset = self.offset - n;
        let r = self.peek_unchecked(n);
        proof {
            assert(r@ =~= old(self).spec_consumed().skip(old(self).spec_consumed().len() - n));
        }
        r
    }

    /// Move the cursor back over the previous `n` elements and return them.
    ///
    /// Returns `None`, and leaves the cursor in place, if
    /// `n > self.consumed().len()`.
    pub fn rewind_checked(&mut self, n: usize) -> (r: Option<&'a [T]>)
        ensures
            r is Some <==> n <= old(self).spec_consumed().len(),
            r is Some ==> final(self).spec_offset() == old(self).spec_offset() - n,
            r is None ==> final(self).spec_offset() == old(self).spec_offset(),
            final(self).spec_source() == old(self).spec_source(),
            r matches Some(p) ==> p@ == old(self).spec_consumed().skip(
                old(self).spec_consumed().len() - n,
            ),
    {
        if n <= self.consumed().len() {
            Some(self.rewind_unchecked(n))
        } else {
            None
        }
    }

    /// Move the cursor back over the previous `n` elements and return them;
    /// the caller ensures `n <= self.consumed().len()`.
    pub fn rewind(&mut self, n: usize) -> (r: &'a [T])
        requires
            n <= old(self).spec_consumed().len(),
        ensures
            final(self).spec_offset() == old(self).spec_offset() - n,
            final(self).spec_source() == old(self).spec_source(),
            r@ == old(self).spec_consumed().skip(old(self).spec_consumed().len() - n),
    {
        self.rewind_checked(n).unwrap()
    }
}

impl<'a, T> Clone for Slide<'a, T> {
    fn clone(&self) -> (r: Self)
        ensures
            r == *self,
    {
        *self
    }
}

impl<'a, T> Copy for Slide<'a, T> {
}

/// Rewinds `s` by steps of ten elements for as long as at least ten have
/// been consumed; the cursor ends at the remainder of its offset modulo ten.
pub fn peek_back<'a>(s: &mut Slide<'a, ()>)
    ensures
        final(s).spec_offset() == old(s).spec_offset() % 10,
        final(s).spec_source() == old(s).spec_source(),
{
    while s.consumed().len() >= 10
        invariant
            s.spec_offset() % 10 == old(s).spec_offset() % 10,
            s.spec_source() == old(s).spec_source(),
        decreases s.spec_offset(),
    {
        s.compiler_hints();
        s.rewind(10);
    }
    s.compiler_hints();
}

/// The consumed and the remaining elements of a slide together make up its
/// source.
pub proof fn lemma_split_is_source<'a, T>(s: Slide<'a, T>)
    requires
        s.spec_offset() <= s.spec_source().len(),
    ensures
        s.spec_consumed() + s.spec_remaining() == s.spec_source(),
{
    assert(s.spec_consumed() + s.spec_remaining() =~= s.spec_source());
}

/// Rewinding by `n` right after advancing by `n` puts the cursor back where
/// it was and hands back the very elements that the advance passed over.
pub proof fn lemma_advance_then_rewind<'a, T>(before: Slide<'a, T>, after: Slide<'a, T>, n: nat)
    requires
        before.spec_offset() <= before.spec_source().len(),
        n <= before.spec_remaining().len(),
        after.spec_source() == before.spec_source(),
        after.spec_offset() == before.spec_offset() + n,
    ensures
        n <= after.spec_consumed().len(),
        after.spec_offset() - n == before.spec_offset(),
        after.spec_consumed().skip(after.spec_consumed().len() - n) == before.spec_remaining().take(
            n as int,
        ),
{
    assert(after.spec_consumed().skip(after.spec_consumed().len() - n)
        =~= before.spec_remaining().take(n as int));
}

/// Advancing by `n` right after rewinding by `n` puts the cursor back where
/// it was and hands back the very elements that the rewind passed over.
pub proof fn lemma_rewind_then_advance<'a, T>(before: Slide<'a, T>, after: Slide<'a, T>, n: nat)
    requires
        before.spec_offset() <= before.spec_source().len(),
        n <= before.spec_consumed().len(),
        after.spec_source() == before.spec_source(),
        after.spec_offset() == before.spec_offset() - n,
    ensures
        n <= after.spec_remaining().len(),
        after.spec_offset() + n == before.spec_offset(),
        after.spec_remaining().take(n as int) == before.spec_consumed().skip(
            before.spec_consumed().len() - n,
        ),
{
    assert(after.spec_remaining().take(n as int) =~= before.spec_consumed().skip(
        before.spec_consumed().len() - n,
    ));
}

} // verus!
