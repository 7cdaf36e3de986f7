use vstd::prelude::*;

verus! {

/// A `start..end` range of indices where `start <= end` always holds.
///
/// It contains every `x` with `start <= x < end`, and it is empty
/// exactly when `start == end`.
#[derive(Debug, Clone, Copy, PartialEq, Eq, Structural, Hash)]
pub struct IndexRange {
    start: usize,
    end: usize,
}

impl IndexRange {
    #[verifier::type_invariant]
    spec fn ordered(self) -> bool {
        self.start <= self.end
    }

    /// The start of the range.
    pub closed spec fn spec_start(self) -> usize {
        self.start
    }

    /// The end of the range.
    pub closed spec fn spec_end(self) -> usize {
        self.end
    }

    /// Create a new [`IndexRange`] without a run-time check; the caller
    /// ensures `start <= end`.
    pub fn new_unchecked(start: usize, end: usize) -> (r: IndexRange)
        requires
            start <= end,
        ensures
            r.spec_start() == start,
            r.spec_end() == end,
    {
        IndexRange { start, end }
    }

    /// Create a new [`IndexRange`] if `start <= end`.
    ///
    /// Returns `None` if `start > end`.
    pub fn new(start: usize, end: usize) -> (r: Option<IndexRange>)
        ensures
            r is Some <==> start <= end,
            r matches Some(range) ==> range.spec_start() == start && range.spec_end() == end,
    {
        if start <= end {
            Some(IndexRange::new_unchecked(start, end))
        } else {
            None
        }
    }

    /// States that the start of an [`IndexRange`] never exceeds its end.
    pub fn compiler_hints(&self)
        ensures
            self.spec_start() <= self.spec_end(),
    {
        proof {
            use_type_invariant(self);
        }
    }

    /// Get the length of the range.
    pub fn len(&self) -> (r: usize)
        ensures
            r == self.spec_end() - self.spec_start(),
    {
        proof {
            use_type_invariant(self);
        }
        self.end - self.start
    }

    /// Get the start of the range.
    pub fn start(&self) -> (r: usize)
        ensures
            r == self.spec_start(),
            r <= self.spec_end(),
    {
        proof {
            use_type_invariant(self);
        }
        self.start
    }

    /// Get the end of the range.
    pub fn end(&self) -> (r: usize)
        ensures
            r == self.spec_end(),
            self.spec_start() <= r,
    {
        proof {
            use_type_invariant(self);
        }
        self.end
    }

    /// Get a reference to the start of the range.
    pub fn start_ref(&self) -> (r: &usize)
        ensures
            *r == self.spec_start(),
            *r <= self.spec_end(),
    {
        proof {
            use_type_invariant(self);
        }
        &self.start
    }

    /// Get a reference to the end of the range.
    pub fn end_ref(&self) -> (r: &usize)
        ensures
            *r == self.spec_end(),
            self.spec_start() <= *r,
    {
        proof {
            use_type_invariant(self);
        }
        &self.end
    }

    /// The standard library range with the same endpoints.
    pub fn to_range(&self) -> (r: core::ops::Range<usize>)
        ensures
            r.start == self.spec_start(),
            r.end == self.spec_end(),
            r.start <= r.end,
    {
        self.start()..self.end()
    }
}

impl Default for IndexRange {
    fn default() -> (r: IndexRange)
        ensures
            r.spec_start() == 0,
            r.spec_end() == 0,
    {
        IndexRange::new_unchecked(0, 0)
    }
}

/// Index a byte slice by an [`IndexRange`]; the caller ensures the range
/// lies within the slice.
#[allow(dead_code)]
fn lol(s: &[u8], r: IndexRange) -> (out: &[u8])
    requires
        r.spec_end() <= s@.len(),
    ensures
        out@ == s@.subrange(r.spec_start() as int, r.spec_end() as int),
{
    &s[r]
}

impl IntoIterator for IndexRange {
    type Item = usize;

    type IntoIter = core::ops::Range<usize>;

    /// Iterates over the indices in the range, from `start` up to `end`.
    fn into_iter(self) -> (r: core::ops::Range<usize>)
        ensures
            r.start == self.spec_start(),
            r.end == self.spec_end(),
    {
        self.to_range()
    }
}

impl<T> core::ops::Index<IndexRange> for [T] {
    type Output = [T];

    /// The elements in `index`; the caller ensures that `index` lies
    /// within the slice.
    fn index(&self, index: IndexRange) -> (r: &[T])
        ensures
            r@ == self@.subrange(index.spec_start() as int, index.spec_end() as int),
    {
        &self[index.to_range()]
    }
}

impl<T> vstd::std_specs::core::IndexSpecImpl<IndexRange> for [T] {
    /// A range may index a slice when it ends within the slice.
    open spec fn index_req(&self, index: &IndexRange) -> bool {
        index.spec_end() <= self@.len()
    }
}

impl From<IndexRange> for core::ops::Range<usize> {
    fn from(value: IndexRange) -> (r: core::ops::Range<usize>) {
        value.to_range()
    }
}

impl vstd::std_specs::convert::FromSpecImpl<IndexRange> for core::ops::Range<usize> {
    open spec fn obeys_from_spec() -> bool {
        true
    }

    open spec fn from_spec(v: IndexRange) -> core::ops::Range<usize> {
        v.spec_start()..v.spec_end()
    }
}

} // verus!
