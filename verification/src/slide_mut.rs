use vstd::prelude::*;

use vstd::std_specs::cmp::{PartialEqSpec, PartialEqSpecImpl};

use crate::slide::Slide;
use crate::util::{empty_slice_mut, slice_as_array, slice_as_array_mut, split_at_mut_in_place};

/// How cursors over mutable slices are ordered.
pub mod order;

verus! {


/// A direction in which a cursor can move or look.
#[derive(Debug, Clone, Copy, PartialEq, Eq, Structural, Hash)]
pub enum Direction {
    /// Towards the start of the buffer, over the consumed elements.
    Left,
    /// Towards the end of the buffer, over the remaining elements.
    Right,
}

/// A cursor over a mutable slice.
///
/// The cursor sits at `offset`, between the `consumed` elements before it
/// and the `remaining` elements after it; `offset` never exceeds the length
/// of the source slice.
pub struct SlideMut<'a, T> {
    offset: usize,
    source: &'a mut [T],
}

impl<'a, T> SlideMut<'a, T> {
    #[verifier::type_invariant]
    spec fn in_bounds(self) -> bool {
        self.offset <= self.source@.len()
    }

    /// The position of the cursor.
    pub closed spec fn spec_offset(self) -> nat {
        self.offset as nat
    }

    /// The elements of the source slice.
    pub closed spec fn spec_source(self) -> Seq<T> {
        self.source@
    }

    /// The elements before the cursor.
    pub open spec fn spec_consumed(self) -> Seq<T> {
        self.spec_source().take(self.spec_offset() as int)
    }

    /// The elements after the cursor.
    pub open spec fn spec_remaining(self) -> Seq<T> {
        self.spec_source().skip(self.spec_offset() as int)
    }

    /// How many elements lie in direction `dir` from the cursor.
    pub open spec fn spec_available(self, dir: Direction) -> nat {
        match dir {
            Direction::Left => self.spec_consumed().len(),
            Direction::Right => self.spec_remaining().len(),
        }
    }

    /// Where the `n` elements in direction `dir` from the cursor start.
    pub open spec fn spec_peek_start(self, dir: Direction, n: nat) -> int {
        match dir {
            Direction::Left => self.spec_offset() - n,
            Direction::Right => self.spec_offset() as int,
        }
    }

    /// The `n` elements in direction `dir` from the cursor.
    pub open spec fn spec_peek(self, dir: Direction, n: nat) -> Seq<T> {
        self.spec_source().subrange(
            self.spec_peek_start(dir, n),
            self.spec_peek_start(dir, n) + n,
        )
    }

    /// Where the cursor lands after moving `n` elements in direction `dir`.
    pub open spec fn spec_slid(self, dir: Direction, n: nat) -> int {
        match dir {
            Direction::Left => self.spec_offset() - n,
            Direction::Right => self.spec_offset() + n as int,
        }
    }

    /// States that the cursor lies within the source slice.
    pub fn compiler_hints(&self)
        ensures
            self.spec_offset() <= self.spec_source().len(),
    {
        proof {
            use_type_invariant(self);
        }
    }

    /// Create a new [`SlideMut`] with its cursor at the start of `slice`.
    pub fn new(slice: &'a mut [T]) -> (r: Self)
        ensures
            r.spec_offset() == 0,
            r.spec_source() == old(slice)@,
    {
        SlideMut { offset: 0, source: slice }
    }

    /// Create a new [`SlideMut`] with its cursor at `offset`.
    ///
    /// Returns `None` if `offset` is out of bounds for `slice`.
    pub fn with_offset(slice: &'a mut [T], offset: usize) -> (r: Option<Self>)
        ensures
            r is Some <==> offset <= old(slice)@.len(),
            r matches Some(s) ==> s.spec_offset() == offset && s.spec_source() == old(
                slice,
            )@,
    {
        if offset <= slice.len() {
            Some(SlideMut { offset, source: slice })
        } else {
            None
        }
    }

    /// Returns the offset of the cursor within the buffer.
    pub fn offset(&self) -> (r: usize)
        ensures
            r == self.spec_offset(),
            r <= self.spec_source().len(),
    {
        self.compiler_hints();
        self.offset
    }

    /// Convert this [`SlideMut`] into a [`Slide`] at the same position.
    pub fn into_slide(self) -> (r: Slide<'a, T>)
        ensures
            r.spec_offset() == self.spec_offset(),
            r.spec_source() == self.spec_source(),
    {
        self.compiler_hints();
        let offset = self.offset;
        let source: &'a [T] = self.source;
        match Slide::from_parts(source, offset) {
            Some(slide) => slide,
            // The cursor never passes the end, so this arm is never taken.
            None => Slide::new(source),
        }
    }

    /// Returns a reference to the source slice.
    pub fn source(&self) -> (r: &[T])
        ensures
            r@ == self.spec_source(),
    {
        &*self.source
    }

    /// Returns a mutable reference to the source slice; the cursor stays put.
    pub fn source_mut(&mut self) -> (r: &mut [T])
        ensures
            r@ == old(self).spec_source(),
            final(self).spec_source() == final(r)@,
            final(self).spec_offset() == old(self).spec_offset(),
    {
        self.compiler_hints();
        let len = self.source.len();
        split_at_mut_in_place(&mut *self.source, len).0
    }

    /// Convert this [`SlideMut`] into the source slice.
    pub fn into_source(self) -> (r: &'a mut [T])
        ensures
            r@ == self.spec_source(),
    {
        self.compiler_hints();
        let len = self.source.len();
        split_at_mut_in_place(self.source, len).0
    }
}

impl<'a, T> SlideMut<'a, T> {
    /// Returns a reference to the consumed slice.
    pub fn consumed(&self) -> (r: &[T])
        ensures
            r@ == self.spec_consumed(),
    {
        self.compiler_hints();
        self.source.split_at(self.offset).0
    }

    /// Returns a mutable reference to the consumed slice; the cursor stays
    /// put and the remaining elements are untouched.
    pub fn consumed_mut(&mut self) -> (r: &mut [T])
        ensures
            r@ == old(self).spec_consumed(),
            final(self).spec_source() == final(r)@ + old(self).spec_remaining(),
            final(self).spec_offset() == old(self).spec_offset(),
    {
        self.compiler_hints();
        let offset = self.offset;
        split_at_mut_in_place(&mut *self.source, offset).0
    }

    /// Converts this [`SlideMut`] into the consumed slice.
    pub fn into_consumed(self) -> (r: &'a mut [T])
        ensures
            r@ == self.spec_consumed(),
    {
        self.compiler_hints();
        let offset = self.offset;
        split_at_mut_in_place(self.source, offset).0
    }

    /// Returns a reference to the remaining slice.
    pub fn remaining(&self) -> (r: &[T])
        ensures
            r@ == self.spec_remaining(),
    {
        self.compiler_hints();
        self.source.split_at(self.offset).1
    }

    /// Returns a mutable reference to the remaining slice; the cursor stays
    /// put and the consumed elements are untouched.
    pub fn remaining_mut(&mut self) -> (r: &mut [T])
        ensures
            r@ == old(self).spec_remaining(),
            final(self).spec_source() == old(self).spec_consumed() + final(r)@,
            final(self).spec_offset() == old(self).spec_offset(),
    {
        self.compiler_hints();
        let offset = self.offset;
        split_at_mut_in_place(&mut *self.source, offset).1
    }

    /// Converts this [`SlideMut`] into the remaining slice.
    pub fn into_remaining(self) -> (r: &'a mut [T])
        ensures
            r@ == self.spec_remaining(),
    {
        self.compiler_hints();
        let offset = self.offset;
        split_at_mut_in_place(self.source, offset).1
    }

    /// Returns the consumed and remaining slices.
    pub fn split(&self) -> (r: (&[T], &[T]))
        ensures
            r.0@ == self.spec_consumed(),
            r.1@ == self.spec_remaining(),
    {
        (self.consumed(), self.remaining())
    }

    /// Returns the consumed and remaining slices mutably; the cursor stays put.
    pub fn split_mut(&mut self) -> (r: (&mut [T], &mut [T]))
        ensures
            r.0@ == old(self).spec_consumed(),
            r.1@ == old(self).spec_remaining(),
            final(self).spec_source() == final(r.0)@ + final(r.1)@,
            final(self).spec_offset() == old(self).spec_offset(),
    {
        self.compiler_hints();
        let offset = self.offset;
        split_at_mut_in_place(&mut *self.source, offset)
    }

    /// Converts this [`SlideMut`] into the consumed and remaining slices.
    pub fn into_split(self) -> (r: (&'a mut [T], &'a mut [T]))
        ensures
            r.0@ == self.spec_consumed(),
            r.1@ == self.spec_remaining(),
    {
        self.compiler_hints();
        let offset = self.offset;
        split_at_mut_in_place(self.source, offset)
    }
}

impl<'a, T> SlideMut<'a, T> {
    /// Move the cursor to `offset` without a run-time check; the caller
    /// ensures `offset <= self.source().len()`.
    pub fn set_offset_unchecked(&mut self, offset: usize)
        requires
            offset <= old(self).spec_source().len(),
        ensures
            final(self).spec_offset() == offset,
            final(self).spec_source() == old(self).spec_source(),
    {
        self.offset = offset;
    }

    /// Move the cursor to `offset` if it lies within the source slice.
    ///
    /// Returns whether the cursor moved; when it did not, nothing changed.
    pub fn set_offset_checked(&mut self, offset: usize) -> (r: bool)
        ensures
            r == (offset <= old(self).spec_source().len()),
            r ==> final(self).spec_offset() == offset,
            !r ==> final(self).spec_offset() == old(self).spec_offset(),
            final(self).spec_source() == old(self).spec_source(),
    {
        if offset <= self.source.len() {
            self.set_offset_unchecked(offset);
            true
        } else {
            false
        }
    }

    /// Move the cursor to `offset`; the caller ensures
    /// `offset <= self.source().len()`.
    pub fn set_offset(&mut self, offset: usize)
        requires
            offset <= old(self).spec_source().len(),
        ensures
            final(self).spec_offset() == offset,
            final(self).spec_source() == old(self).spec_source(),
    {
        let moved = self.set_offset_checked(offset);
        assert(moved);
    }

    /// Move the cursor `n` elements in direction `dir` without a run-time
    /// check; the caller ensures that many elements lie that way.
    pub fn slide_unchecked(&mut self, dir: Direction, n: usize)
        requires
            n <= old(self).spec_available(dir),
        ensures
            final(self).spec_offset() == old(self).spec_slid(dir, n as nat),
            final(self).spec_source() == old(self).spec_source(),
    {
        self.compiler_hints();
        let _len = self.source.len();
        match dir {
            Direction::Left => self.offset = self.offset - n,
            Direction::Right => self.offset = self.offset + n,
        }
    }

    /// Move the cursor `n` elements in direction `dir`, if that many lie
    /// that way.
    ///
    /// Returns whether the cursor moved; when it did not, nothing changed.
    pub fn slide_checked(&mut self, dir: Direction, n: usize) -> (r: bool)
        ensures
            r == (n <= old(self).spec_available(dir)),
            r ==> final(self).spec_offset() == old(self).spec_slid(dir, n as nat),
            !r ==> final(self).spec_offset() == old(self).spec_offset(),
            final(self).spec_source() == old(self).spec_source(),
    {
        if n <= self.available(dir) {
            self.slide_unchecked(dir, n);
            true
        } else {
            false
        }
    }

    /// Move the cursor `n` elements in direction `dir`; the caller ensures
    /// that many elements lie that way.
    pub fn slide(&mut self, dir: Direction, n: usize)
        requires
            n <= old(self).spec_available(dir),
        ensures
            final(self).spec_offset() == old(self).spec_slid(dir, n as nat),
            final(self).spec_source() == old(self).spec_source(),
    {
        let moved = self.slide_checked(dir, n);
        assert(moved);
    }

    /// How many elements lie in direction `dir` from the cursor.
    pub fn available(&self, dir: Direction) -> (r: usize)
        ensures
            r == self.spec_available(dir),
    {
        self.compiler_hints();
        let len = self.source.len();
        match dir {
            Direction::Left => self.offset,
            Direction::Right => len - self.offset,
        }
    }

    /// Where the `n` elements in direction `dir` from the cursor start.
    fn peek_start(&self, dir: Direction, n: usize) -> (r: usize)
        requires
            n <= self.spec_available(dir),
        ensures
            r == self.spec_peek_start(dir, n as nat),
            r + n <= self.spec_source().len(),
    {
        self.compiler_hints();
        match dir {
            Direction::Left => self.offset - n,
            Direction::Right => self.offset,
        }
    }
}

impl<'a, T> SlideMut<'a, T> {
    /// Returns the `n` elements in direction `dir` from the cursor; the
    /// caller ensures that many elements lie that way.
    pub fn peek_slice_unchecked(&self, dir: Direction, n: usize) -> (r: &[T])
        requires
            n <= self.spec_available(dir),
        ensures
            r@ == self.spec_peek(dir, n as nat),
    {
        let start = self.peek_start(dir, n);
        let tail = self.source.split_at(start).1;
        let r = tail.split_at(n).0;
        proof {
            assert(r@ =~= self.spec_peek(dir, n as nat));
        }
        r
    }

    /// Returns the next element in direction `dir` from the cursor; the
    /// caller ensures there is one.
    pub fn peek_unchecked(&self, dir: Direction) -> (r: &T)
        requires
            1 <= self.spec_available(dir),
        ensures
            *r == self.spec_source()[self.spec_peek_start(dir, 1)],
    {
        let start = self.peek_start(dir, 1);
        &self.source[start]
    }

    /// Returns the `n` elements in direction `dir` from the cursor.
    ///
    /// Returns `None` if fewer than `n` elements lie that way.
    pub fn peek_slice_checked(&self, dir: Direction, n: usize) -> (r: Option<&[T]>)
        ensures
            r is Some <==> n <= self.spec_available(dir),
            r matches Some(p) ==> p@ == self.spec_peek(dir, n as nat),
    {
        if n <= self.available(dir) {
            Some(self.peek_slice_unchecked(dir, n))
        } else {
            None
        }
    }

    /// Returns the next element in direction `dir` from the cursor.
    ///
    /// Returns `None` if there is none.
    pub fn peek_checked(&self, dir: Direction) -> (r: Option<&T>)
        ensures
            r is Some <==> 1 <= self.spec_available(dir),
            r matches Some(p) ==> *p == self.spec_source()[self.spec_peek_start(dir, 1)],
    {
        if 1 <= self.available(dir) {
            Some(self.peek_unchecked(dir))
        } else {
            None
        }
    }

    /// Returns the `n` elements in direction `dir` from the cursor; the
    /// caller ensures that many elements lie that way.
    pub fn peek_slice(&self, dir: Direction, n: usize) -> (r: &[T])
        requires
            n <= self.spec_available(dir),
        ensures
            r@ == self.spec_peek(dir, n as nat),
    {
        self.peek_slice_checked(dir, n).unwrap()
    }

    /// Returns the next element in direction `dir` from the cursor; the
    /// caller ensures there is one.
    pub fn peek(&self, dir: Direction) -> (r: &T)
        requires
            1 <= self.spec_available(dir),
        ensures
            *r == self.spec_source()[self.spec_peek_start(dir, 1)],
    {
        self.peek_checked(dir).unwrap()
    }
}

impl<'a, T> SlideMut<'a, T> {
    /// Returns the `n` elements in direction `dir` from the cursor mutably;
    /// the caller ensures that many elements lie that way. The cursor stays
    /// put and no other element changes.
    pub fn peek_mut_slice_unchecked(&mut self, dir: Direction, n: usize) -> (r: &mut [T])
        requires
            n <= old(self).spec_available(dir),
        ensures
            r@ == old(self).spec_peek(dir, n as nat),
            final(self).spec_source() == old(self).spec_source().take(
                old(self).spec_peek_start(dir, n as nat),
            ) + final(r)@ + old(self).spec_source().skip(
                old(self).spec_peek_start(dir, n as nat) + n,
            ),
            final(self).spec_offset() == old(self).spec_offset(),
    {
        let start = self.peek_start(dir, n);
        let (_head, tail) = split_at_mut_in_place(&mut *self.source, start);
        let (r, _rest) = split_at_mut_in_place(tail, n);
        proof {
            assert(r@ =~= old(self).spec_peek(dir, n as nat));
        }
        r
    }

    /// Returns the next element in direction `dir` from the cursor mutably;
    /// the caller ensures there is one. The cursor stays put and no other
    /// element changes.
    pub fn peek_mut_unchecked(&mut self, dir: Direction) -> (r: &mut T)
        requires
            1 <= old(self).spec_available(dir),
        ensures
            *r == old(self).spec_source()[old(self).spec_peek_start(dir, 1)],
            final(self).spec_source() == old(self).spec_source().update(
                old(self).spec_peek_start(dir, 1),
                *final(r),
            ),
            final(self).spec_offset() == old(self).spec_offset(),
    {
        self.compiler_hints();
        let one = self.peek_mut_slice_unchecked(dir, 1);
        one.first_mut().unwrap()
    }
}

impl<'a, T> SlideMut<'a, T> {
    /// Returns the `n` elements in direction `dir` from the cursor mutably.
    ///
    /// Returns `None`, changing nothing, if fewer than `n` elements lie that
    /// way.
    pub fn peek_mut_slice_checked(&mut self, dir: Direction, n: usize) -> (r: Option<&mut [T]>)
        ensures
            r is Some <==> n <= old(self).spec_available(dir),
            r matches Some(p) ==> p@ == old(self).spec_peek(dir, n as nat) && final(self).spec_source()
                == old(self).spec_source().take(old(self).spec_peek_start(dir, n as nat)) + final(p)@
                + old(self).spec_source().skip(old(self).spec_peek_start(dir, n as nat) + n),
            r is None ==> final(self).spec_source() == old(self).spec_source(),
            final(self).spec_offset() == old(self).spec_offset(),
    {
        if n <= self.available(dir) {
            Some(self.peek_mut_slice_unchecked(dir, n))
        } else {
            None
        }
    }

    /// Returns the next element in direction `dir` from the cursor mutably.
    ///
    /// Returns `None`, changing nothing, if there is none.
    pub fn peek_mut_checked(&mut self, dir: Direction) -> (r: Option<&mut T>)
        ensures
            r is Some <==> 1 <= old(self).spec_available(dir),
            r matches Some(p) ==> *p == old(self).spec_source()[old(self).spec_peek_start(dir, 1)]
                && final(self).spec_source() == old(self).spec_source().update(
                old(self).spec_peek_start(dir, 1),
                *final(p),
            ),
            r is None ==> final(self).spec_source() == old(self).spec_source(),
            final(self).spec_offset() == old(self).spec_offset(),
    {
        if 1 <= self.available(dir) {
            Some(self.peek_mut_unchecked(dir))
        } else {
            None
        }
    }

    /// Returns the `n` elements in direction `dir` from the cursor mutably;
    /// the caller ensures that many elements lie that way.
    pub fn peek_mut_slice(&mut self, dir: Direction, n: usize) -> (r: &mut [T])
        requires
            n <= old(self).spec_available(dir),
        ensures
            r@ == old(self).spec_peek(dir, n as nat),
            final(self).spec_source() == old(self).spec_source().take(
                old(self).spec_peek_start(dir, n as nat),
            ) + final(r)@ + old(self).spec_source().skip(
                old(self).spec_peek_start(dir, n as nat) + n,
            ),
            final(self).spec_offset() == old(self).spec_offset(),
    {
        self.peek_mut_slice_unchecked(dir, n)
    }

    /// Returns the next element in direction `dir` from the cursor mutably;
    /// the caller ensures there is one.
    pub fn peek_mut(&mut self, dir: Direction) -> (r: &mut T)
        requires
            1 <= old(self).spec_available(dir),
        ensures
            *r == old(self).spec_source()[old(self).spec_peek_start(dir, 1)],
            final(self).spec_source() == old(self).spec_source().update(
                old(self).spec_peek_start(dir, 1),
                *final(r),
            ),
            final(self).spec_offset() == old(self).spec_offset(),
    {
        self.peek_mut_unchecked(dir)
    }
}

impl<'a, T> SlideMut<'a, T> {
    /// Returns the `N` elements in direction `dir` from the cursor as an
    /// array; the caller ensures that many elements lie that way.
    pub fn peek_array_unchecked<const N: usize>(&self, dir: Direction) -> (r: &[T; N])
        requires
            N <= self.spec_available(dir),
        ensures
            r@ == self.spec_peek(dir, N as nat),
    {
        self.compiler_hints();
        let slice = self.peek_slice_unchecked(dir, N);
        assert(slice@.len() == N);
        slice_as_array(slice).unwrap()
    }

    /// Returns the `N` elements in direction `dir` from the cursor as an
    /// array.
    ///
    /// Returns `None` if fewer than `N` elements lie that way.
    pub fn peek_array_checked<const N: usize>(&self, dir: Direction) -> (r: Option<&[T; N]>)
        ensures
            r is Some <==> N <= self.spec_available(dir),
            r matches Some(p) ==> p@ == self.spec_peek(dir, N as nat),
    {
        if N <= self.available(dir) {
            Some(self.peek_array_unchecked::<N>(dir))
        } else {
            None
        }
    }

    /// Returns the `N` elements in direction `dir` from the cursor as an
    /// array; the caller ensures that many elements lie that way.
    pub fn peek_array<const N: usize>(&self, dir: Direction) -> (r: &[T; N])
        requires
            N <= self.spec_available(dir),
        ensures
            r@ == self.spec_peek(dir, N as nat),
    {
        self.peek_array_checked::<N>(dir).unwrap()
    }

    /// Returns the `N` elements in direction `dir` from the cursor as a
    /// mutable array; the caller ensures that many elements lie that way.
    /// The cursor stays put and no other element changes.
    pub fn peek_mut_array_unchecked<const N: usize>(&mut self, dir: Direction) -> (r: &mut [T; N])
        requires
            N <= old(self).spec_available(dir),
        ensures
            r@ == old(self).spec_peek(dir, N as nat),
            final(self).spec_source() == old(self).spec_source().take(
                old(self).spec_peek_start(dir, N as nat),
            ) + final(r)@ + old(self).spec_source().skip(
                old(self).spec_peek_start(dir, N as nat) + N,
            ),
            final(self).spec_offset() == old(self).spec_offset(),
    {
        self.compiler_hints();
        let slice = self.peek_mut_slice_unchecked(dir, N);
        assert(slice@.len() == N);
        slice_as_array_mut(slice).unwrap()
    }

    /// Returns the `N` elements in direction `dir` from the cursor as a
    /// mutable array.
    ///
    /// Returns `None`, changing nothing, if fewer than `N` elements lie that
    /// way.
    pub fn peek_mut_array_checked<const N: usize>(&mut self, dir: Direction) -> (r: Option<
        &mut [T; N],
    >)
        ensures
            r is Some <==> N <= old(self).spec_available(dir),
            r matches Some(p) ==> p@ == old(self).spec_peek(dir, N as nat) && final(self).spec_source()
                == old(self).spec_source().take(old(self).spec_peek_start(dir, N as nat)) + final(p)@
                + old(self).spec_source().skip(old(self).spec_peek_start(dir, N as nat) + N),
            r is None ==> final(self).spec_source() == old(self).spec_source(),
            final(self).spec_offset() == old(self).spec_offset(),
    {
        if N <= self.available(dir) {
            Some(self.peek_mut_array_unchecked::<N>(dir))
        } else {
            None
        }
    }

    /// Returns the `N` elements in direction `dir` from the cursor as a
    /// mutable array; the caller ensures that many elements lie that way.
    pub fn peek_mut_array<const N: usize>(&mut self, dir: Direction) -> (r: &mut [T; N])
        requires
            N <= old(self).spec_available(dir),
        ensures
            r@ == old(self).spec_peek(dir, N as nat),
            final(self).spec_source() == old(self).spec_source().take(
                old(self).spec_peek_start(dir, N as nat),
            ) + final(r)@ + old(self).spec_source().skip(
                old(self).spec_peek_start(dir, N as nat) + N,
            ),
            final(self).spec_offset() == old(self).spec_offset(),
    {
        self.peek_mut_array_unchecked::<N>(dir)
    }
}


impl<'a, T> Default for SlideMut<'a, T> {
    /// A cursor at the start of an empty slice.
    fn default() -> (r: SlideMut<'a, T>)
        ensures
            r.spec_offset() == 0,
            r.spec_source().len() == 0,
    {
        SlideMut::new(empty_slice_mut())
    }
}

impl<'a, T> From<&'a mut [T]> for SlideMut<'a, T> {
    /// A cursor at the start of `value`.
    fn from(value: &'a mut [T]) -> (r: SlideMut<'a, T>)
        ensures
            r.spec_offset() == 0,
            r.spec_source() == old(value)@,
    {
        SlideMut::new(value)
    }
}

impl<'a, T> vstd::std_specs::convert::FromSpecImpl<&'a mut [T]> for SlideMut<'a, T> {
    /// What `from` returns is stated by its own `ensures`: the cursor holds
    /// the mutable borrow itself, which no spec function can rebuild.
    open spec fn obeys_from_spec() -> bool {
        false
    }

    closed spec fn from_spec(v: &'a mut [T]) -> SlideMut<'a, T> {
        SlideMut { offset: 0, source: v }
    }
}

/// Whether two sequences hold equal elements, pair by pair, as the `==` of
/// their element types says.
pub open spec fn spec_seqs_eq<T: PartialEq<U>, U>(a: Seq<T>, b: Seq<U>) -> bool {
    &&& a.len() == b.len()
    &&& forall|i: int| 0 <= i < a.len() ==> #[trigger] a[i].eq_spec(&b[i])
}

/// Compares two slices element by element.
fn slices_eq<T: PartialEq<U>, U>(a: &[T], b: &[U]) -> (r: bool)
    ensures
        <T as PartialEqSpec<U>>::obeys_eq_spec() ==> r == spec_seqs_eq(a@, b@),
{
    if a.len() != b.len() {
        return false;
    }
    let mut i: usize = 0;
    while i < a.len()
        invariant
            i <= a@.len(),
            a@.len() == b@.len(),
            <T as PartialEqSpec<U>>::obeys_eq_spec() ==> forall|j: int|
                0 <= j < i ==> #[trigger] a@[j].eq_spec(&b@[j]),
        decreases a@.len() - i,
    {
        if !(a[i] == b[i]) {
            return false;
        }
        i += 1;
    }
    true
}

impl<'a, 'b, T, U> PartialEq<SlideMut<'b, U>> for SlideMut<'a, T> where T: PartialEq<U> {
    fn eq(&self, other: &SlideMut<'b, U>) -> (r: bool) {
        slices_eq(self.consumed(), other.consumed()) && slices_eq(self.remaining(), other.remaining())
    }
}

impl<'a, 'b, T, U> PartialEqSpecImpl<SlideMut<'b, U>> for SlideMut<'a, T> where T: PartialEq<U> {
    open spec fn obeys_eq_spec() -> bool {
        <T as PartialEqSpec<U>>::obeys_eq_spec()
    }

    /// Two cursors are equal when their consumed elements are equal and their
    /// remaining elements are equal.
    open spec fn eq_spec(&self, other: &SlideMut<'b, U>) -> bool {
        &&& spec_seqs_eq(self.spec_consumed(), other.spec_consumed())
        &&& spec_seqs_eq(self.spec_remaining(), other.spec_remaining())
    }
}

impl<'a, 'b, T, U> PartialEq<Slide<'b, U>> for SlideMut<'a, T> where T: PartialEq<U> {
    fn eq(&self, other: &Slide<'b, U>) -> (r: bool) {
        slices_eq(self.consumed(), other.consumed()) && slices_eq(self.remaining(), other.remaining())
    }
}

impl<'a, 'b, T, U> PartialEqSpecImpl<Slide<'b, U>> for SlideMut<'a, T> where T: PartialEq<U> {
    open spec fn obeys_eq_spec() -> bool {
        <T as PartialEqSpec<U>>::obeys_eq_spec()
    }

    /// A cursor over a mutable slice equals one over a shared slice when
    /// their consumed elements are equal and their remaining elements are
    /// equal.
    open spec fn eq_spec(&self, other: &Slide<'b, U>) -> bool {
        &&& spec_seqs_eq(self.spec_consumed(), other.spec_consumed())
        &&& spec_seqs_eq(self.spec_remaining(), other.spec_remaining())
    }
}

/// Two cursors over mutable slices are equal exactly when they have
/// consumed equally many elements, pair by pair equal, and have equally many
/// elements remaining, pair by pair equal.
pub proof fn lemma_eq_compares_consumed_and_remaining<'a, 'b, T: PartialEq<U>, U>(
    x: SlideMut<'a, T>,
    y: SlideMut<'b, U>,
)
    ensures
        PartialEqSpec::eq_spec(&x, &y) == (x.spec_consumed().len() == y.spec_consumed().len()
            && (forall|i: int|
            0 <= i < x.spec_consumed().len() ==> #[trigger] PartialEqSpec::eq_spec(
                &x.spec_consumed()[i],
                &y.spec_consumed()[i],
            )) && x.spec_remaining().len() == y.spec_remaining().len() && (forall|i: int|
            0 <= i < x.spec_remaining().len() ==> #[trigger] PartialEqSpec::eq_spec(
                &x.spec_remaining()[i],
                &y.spec_remaining()[i],
            ))),
{
}

/// A cursor over a mutable slice equals one over a shared slice exactly when
/// they have consumed equally many elements, pair by pair equal, and have
/// equally many elements remaining, pair by pair equal.
pub proof fn lemma_eq_shared_compares_consumed_and_remaining<'a, 'b, T: PartialEq<U>, U>(
    x: SlideMut<'a, T>,
    y: Slide<'b, U>,
)
    ensures
        PartialEqSpec::eq_spec(&x, &y) == (x.spec_consumed().len() == y.spec_consumed().len()
            && (forall|i: int|
            0 <= i < x.spec_consumed().len() ==> #[trigger] PartialEqSpec::eq_spec(
                &x.spec_consumed()[i],
                &y.spec_consumed()[i],
            )) && x.spec_remaining().len() == y.spec_remaining().len() && (forall|i: int|
            0 <= i < x.spec_remaining().len() ==> #[trigger] PartialEqSpec::eq_spec(
                &x.spec_remaining()[i],
                &y.spec_remaining()[i],
            ))),
{
}

impl<'a, T> Eq for SlideMut<'a, T> where T: Eq {

}

/// Sliding `n` elements one way and then `n` elements back puts the cursor
/// back where it was.
pub proof fn lemma_slide_there_and_back<'a, T>(
    before: SlideMut<'a, T>,
    middle: SlideMut<'a, T>,
    dir: Direction,
    n: nat,
)
    requires
        before.spec_offset() <= before.spec_source().len(),
        n <= before.spec_available(dir),
        middle.spec_source() == before.spec_source(),
        middle.spec_offset() == before.spec_slid(dir, n),
    ensures
        n <= middle.spec_available(spec_opposite(dir)),
        middle.spec_slid(spec_opposite(dir), n) == before.spec_offset(),
{
}

/// The direction opposite to `dir`.
pub open spec fn spec_opposite(dir: Direction) -> Direction {
    match dir {
        Direction::Left => Direction::Right,
        Direction::Right => Direction::Left,
    }
}

} // verus!
