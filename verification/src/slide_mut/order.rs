use vstd::prelude::*;

use core::cmp::Ordering;
use vstd::std_specs::cmp::{PartialOrdSpec, PartialOrdSpecImpl};

use crate::slide::Slide;
use crate::slide_mut::SlideMut;

verus! {

/// The elements of `s` from index `i` on.
pub open spec fn from_index<T>(s: Seq<T>, i: usize) -> Seq<T> {
    s.skip(i as int)
}

/// Stepping past the first element of `from_index(s, i)` gives
/// `from_index(s, i + 1)`, and that first element is `s[i]`.
proof fn lemma_from_index_step<T>(s: Seq<T>, i: usize)
    requires
        i < s.len(),
        s.len() <= usize::MAX,
    ensures
        from_index(s, i).len() > 0,
        from_index(s, i)[0] == s[i as int],
        from_index(s, i).drop_first() == from_index(s, (i + 1) as usize),
{
    assert(from_index(s, i).drop_first() =~= from_index(s, (i + 1) as usize));
}

/// How two lengths compare.
pub open spec fn length_order(a: nat, b: nat) -> Ordering {
    if a < b {
        Ordering::Less
    } else if b < a {
        Ordering::Greater
    } else {
        Ordering::Equal
    }
}

/// How two sequences compare lexicographically: by the first pair of
/// elements that does not compare equal (or does not compare at all), and by
/// length when one is a prefix of the other.
pub open spec fn lexicographic_order<T: PartialOrd>(a: Seq<T>, b: Seq<T>) -> Option<Ordering>
    decreases a.len(),
{
    if a.len() == 0 || b.len() == 0 {
        Some(length_order(a.len(), b.len()))
    } else {
        match a[0].partial_cmp_spec(&b[0]) {
            Some(Ordering::Equal) => lexicographic_order(a.drop_first(), b.drop_first()),
            other => other,
        }
    }
}

/// How two cursors compare: by their consumed elements, then by their
/// remaining elements; not at all if either pair does not compare.
pub open spec fn cursor_order<T: PartialOrd>(
    consumed: Seq<T>,
    remaining: Seq<T>,
    other_consumed: Seq<T>,
    other_remaining: Seq<T>,
) -> Option<Ordering> {
    match (
        lexicographic_order(consumed, other_consumed),
        lexicographic_order(remaining, other_remaining),
    ) {
        (Some(first), Some(second)) => Some(
            if first == Ordering::Equal {
                second
            } else {
                first
            },
        ),
        _ => None,
    }
}

/// Compares two slices lexicographically.
fn slices_order<T: PartialOrd>(a: &[T], b: &[T]) -> (r: Option<Ordering>)
    ensures
        T::obeys_partial_cmp_spec() ==> r == lexicographic_order(a@, b@),
{
    let a_len = a.len();
    let b_len = b.len();
    let mut i: usize = 0;
    proof {
        assert(from_index(a@, i) =~= a@);
        assert(from_index(b@, i) =~= b@);
    }
    while i < a_len && i < b_len
        invariant
            a_len == a@.len(),
            b_len == b@.len(),
            i <= a_len,
            i <= b_len,
            T::obeys_partial_cmp_spec() ==> lexicographic_order(a@, b@) == lexicographic_order(
                from_index(a@, i),
                from_index(b@, i),
            ),
        decreases a@.len() - i,
    {
        proof {
            lemma_from_index_step(a@, i);
            lemma_from_index_step(b@, i);
        }
        let order = a[i].partial_cmp(&b[i]);
        match order {
            Some(Ordering::Equal) => {},
            _ => {
                return order;
            },
        }
        i = i + 1;
    }
    if a_len < b_len {
        Some(Ordering::Less)
    } else if b_len < a_len {
        Some(Ordering::Greater)
    } else {
        Some(Ordering::Equal)
    }
}

/// Combines the orders of the consumed and the remaining elements.
fn combine(first: Option<Ordering>, second: Option<Ordering>) -> (r: Option<Ordering>)
    ensures
        r == (match (first, second) {
            (Some(f), Some(s)) => Some(
                if f == Ordering::Equal {
                    s
                } else {
                    f
                },
            ),
            _ => None,
        }),
{
    match (first, second) {
        (Some(Ordering::Equal), Some(s)) => Some(s),
        (Some(f), Some(_)) => Some(f),
        _ => None,
    }
}

impl<'a, 'b, T> PartialOrd<SlideMut<'b, T>> for SlideMut<'a, T> where T: PartialOrd {
    fn partial_cmp(&self, other: &SlideMut<'b, T>) -> (r: Option<Ordering>) {
        let first = slices_order(self.consumed(), other.consumed());
        let second = slices_order(self.remaining(), other.remaining());
        combine(first, second)
    }
}

impl<'a, 'b, T> PartialOrdSpecImpl<SlideMut<'b, T>> for SlideMut<'a, T> where T: PartialOrd {
    open spec fn obeys_partial_cmp_spec() -> bool {
        T::obeys_partial_cmp_spec()
    }

    /// Cursors order by their consumed elements, then by their remaining
    /// elements, each compared lexicographically.
    open spec fn partial_cmp_spec(&self, other: &SlideMut<'b, T>) -> Option<Ordering> {
        cursor_order(
            self.spec_consumed(),
            self.spec_remaining(),
            other.spec_consumed(),
            other.spec_remaining(),
        )
    }
}

impl<'a, 'b, T> PartialOrd<Slide<'b, T>> for SlideMut<'a, T> where T: PartialOrd {
    fn partial_cmp(&self, other: &Slide<'b, T>) -> (r: Option<Ordering>) {
        let first = slices_order(self.consumed(), other.consumed());
        let second = slices_order(self.remaining(), other.remaining());
        combine(first, second)
    }
}

impl<'a, 'b, T> PartialOrdSpecImpl<Slide<'b, T>> for SlideMut<'a, T> where T: PartialOrd {
    open spec fn obeys_partial_cmp_spec() -> bool {
        T::obeys_partial_cmp_spec()
    }

    /// A cursor over a mutable slice orders against one over a shared slice
    /// by their consumed elements, then by their remaining elements.
    open spec fn partial_cmp_spec(&self, other: &Slide<'b, T>) -> Option<Ordering> {
        cursor_order(
            self.spec_consumed(),
            self.spec_remaining(),
            other.spec_consumed(),
            other.spec_remaining(),
        )
    }
}

/// Lexicographic order is decided by the first pair of elements that does
/// not compare equal: their comparison, whatever follows, is the result.
pub proof fn lemma_lexicographic_first_difference<T: PartialOrd>(a: Seq<T>, b: Seq<T>, k: int)
    requires
        0 <= k < a.len(),
        k < b.len(),
        forall|j: int| 0 <= j < k ==> #[trigger] a[j].partial_cmp_spec(&b[j]) == Some(Ordering::Equal),
        a[k].partial_cmp_spec(&b[k]) != Some(Ordering::Equal),
    ensures
        lexicographic_order(a, b) == a[k].partial_cmp_spec(&b[k]),
    decreases k,
{
    if k > 0 {
        assert(a[0].partial_cmp_spec(&b[0]) == Some(Ordering::Equal));
        let (ta, tb) = (a.drop_first(), b.drop_first());
        assert forall|j: int| 0 <= j < k - 1 implies #[trigger] ta[j].partial_cmp_spec(&tb[j])
            == Some(Ordering::Equal) by {
            assert(ta[j] == a[j + 1] && tb[j] == b[j + 1]);
            assert(a[j + 1].partial_cmp_spec(&b[j + 1]) == Some(Ordering::Equal));
        }
        assert(ta[k - 1] == a[k] && tb[k - 1] == b[k]);
        lemma_lexicographic_first_difference(ta, tb, k - 1);
    }
}

/// When every pair of elements up to the end of the shorter sequence
/// compares equal, the shorter sequence is less, and sequences of equal
/// length are equal.
pub proof fn lemma_lexicographic_common_prefix<T: PartialOrd>(a: Seq<T>, b: Seq<T>)
    requires
        forall|j: int|
            0 <= j < a.len() && j < b.len() ==> #[trigger] a[j].partial_cmp_spec(&b[j]) == Some(
                Ordering::Equal,
            ),
    ensures
        a.len() < b.len() ==> lexicographic_order(a, b) == Some(Ordering::Less),
        b.len() < a.len() ==> lexicographic_order(a, b) == Some(Ordering::Greater),
        a.len() == b.len() ==> lexicographic_order(a, b) == Some(Ordering::Equal),
    decreases a.len(),
{
    if a.len() > 0 && b.len() > 0 {
        assert(a[0].partial_cmp_spec(&b[0]) == Some(Ordering::Equal));
        let (ta, tb) = (a.drop_first(), b.drop_first());
        assert forall|j: int| 0 <= j < ta.len() && j < tb.len() implies #[trigger] ta[j].partial_cmp_spec(
            &tb[j],
        ) == Some(Ordering::Equal) by {
            assert(ta[j] == a[j + 1] && tb[j] == b[j + 1]);
            assert(a[j + 1].partial_cmp_spec(&b[j + 1]) == Some(Ordering::Equal));
        }
        lemma_lexicographic_common_prefix(ta, tb);
    }
}

/// Cursors over mutable slices order by their consumed elements first: when
/// those compare unequal, that order is the result (provided the remaining
/// elements compare at all); when they compare equal, the remaining elements
/// decide; when either pair does not compare, neither do the cursors.
pub proof fn lemma_cursor_order_consumed_first<'a, 'b, T: PartialOrd>(
    x: SlideMut<'a, T>,
    y: SlideMut<'b, T>,
)
    ensures
        lexicographic_order(x.spec_consumed(), y.spec_consumed()) is Some && lexicographic_order(
            x.spec_consumed(),
            y.spec_consumed(),
        ) != Some(Ordering::Equal) && lexicographic_order(x.spec_remaining(), y.spec_remaining()) is Some
            ==> PartialOrdSpec::partial_cmp_spec(&x, &y) == lexicographic_order(x.spec_consumed(), y.spec_consumed()),
        lexicographic_order(x.spec_consumed(), y.spec_consumed()) == Some(Ordering::Equal)
            ==> PartialOrdSpec::partial_cmp_spec(&x, &y) == lexicographic_order(x.spec_remaining(), y.spec_remaining()),
        lexicographic_order(x.spec_consumed(), y.spec_consumed()) is None || lexicographic_order(
            x.spec_remaining(),
            y.spec_remaining(),
        ) is None ==> PartialOrdSpec::partial_cmp_spec(&x, &y) is None,
{
}

/// A cursor over a mutable slice orders against one over a shared slice by
/// their consumed elements first: when those compare unequal, that order is
/// the result (provided the remaining elements compare at all); when they
/// compare equal, the remaining elements decide; when either pair does not
/// compare, neither do the cursors.
pub proof fn lemma_cursor_order_shared_consumed_first<'a, 'b, T: PartialOrd>(
    x: SlideMut<'a, T>,
    y: Slide<'b, T>,
)
    ensures
        lexicographic_order(x.spec_consumed(), y.spec_consumed()) is Some && lexicographic_order(
            x.spec_consumed(),
            y.spec_consumed(),
        ) != Some(Ordering::Equal) && lexicographic_order(x.spec_remaining(), y.spec_remaining()) is Some
            ==> PartialOrdSpec::partial_cmp_spec(&x, &y) == lexicographic_order(x.spec_consumed(), y.spec_consumed()),
        lexicographic_order(x.spec_consumed(), y.spec_consumed()) == Some(Ordering::Equal)
            ==> PartialOrdSpec::partial_cmp_spec(&x, &y) == lexicographic_order(x.spec_remaining(), y.spec_remaining()),
        lexicographic_order(x.spec_consumed(), y.spec_consumed()) is None || lexicographic_order(
            x.spec_remaining(),
            y.spec_remaining(),
        ) is None ==> PartialOrdSpec::partial_cmp_spec(&x, &y) is None,
{
}

} // verus!
