use vstd::prelude::*;
use vstd::string::StringExecFns;

pub use core::ops::Bound;

verus! {

/// `core::ops::Bound`, an endpoint of a range: included, excluded, or
/// absent. Verus reads its three variants.
#[verifier::external_type_specification]
#[verifier::reject_recursive_types(T)]
pub struct ExBound<T>(core::ops::Bound<T>);

/// `core::ops::RangeTo`, the range `..end`, whose one public field Verus reads.
#[verifier::external_type_specification]
#[verifier::reject_recursive_types(Idx)]
pub struct ExRangeTo<Idx>(core::ops::RangeTo<Idx>);

/// `core::ops::RangeToInclusive`, the range `..=end`, whose one public field
/// Verus reads.
#[verifier::external_type_specification]
#[verifier::reject_recursive_types(Idx)]
pub struct ExRangeToInclusive<Idx>(core::ops::RangeToInclusive<Idx>);

/// `core::ops::RangeFrom`, the range `start..`, whose one public field Verus
/// reads.
#[verifier::external_type_specification]
#[verifier::reject_recursive_types(Idx)]
pub struct ExRangeFrom<Idx>(core::ops::RangeFrom<Idx>);

/// `core::ops::RangeFull`, the range `..`, which has no fields.
#[verifier::external_type_specification]
pub struct ExRangeFull(core::ops::RangeFull);

/// The bound obtained by reading through the references of `bound`.
pub open spec fn spec_bound_copied<T>(bound: Bound<&T>) -> Bound<T> {
    match bound {
        Bound::Included(x) => Bound::Included(*x),
        Bound::Excluded(x) => Bound::Excluded(*x),
        Bound::Unbounded => Bound::Unbounded,
    }
}

/// Borrow the value inside a bound.
pub fn bound_ref<T>(bound: &Bound<T>) -> (r: Bound<&T>)
    ensures
        spec_bound_copied(r) == *bound,
{
    match bound {
        Bound::Included(b) => Bound::Included(b),
        Bound::Excluded(b) => Bound::Excluded(b),
        Bound::Unbounded => Bound::Unbounded,
    }
}

/// Copy the value out of a borrowed bound.
pub fn bound_copied<T: Copy>(bound: Bound<&T>) -> (r: Bound<T>)
    ensures
        r == spec_bound_copied(bound),
{
    match bound {
        Bound::Included(b) => Bound::Included(*b),
        Bound::Excluded(b) => Bound::Excluded(*b),
        Bound::Unbounded => Bound::Unbounded,
    }
}

/// Marks a code path as cold. It has no effect on the program's state.
pub fn cold() {
}

/// Marks a condition as unlikely; returns the condition unchanged.
pub fn unlikely(cond: bool) -> (r: bool)
    ensures
        r == cond,
{
    if cond {
        cold();
    }
    cond
}

/// Marks a condition as likely; returns the condition unchanged.
pub fn likely(cond: bool) -> (r: bool)
    ensures
        r == cond,
{
    if !cond {
        cold();
    }
    cond
}

/// Returns `lhs - rhs` for `rhs <= lhs`.
pub fn unchecked_sub(lhs: usize, rhs: usize) -> (r: usize)
    requires
        rhs <= lhs,
    ensures
        r == lhs - rhs,
{
    lhs - rhs
}

/// Calls `<[T]>::split_at_mut`, which, as its documentation states, divides
/// one mutable slice into the elements before `mid` and those from `mid` on.
/// The contract adds what the type system guarantees: a `&mut [T]` cannot
/// change its length, so each half keeps its length until its borrow ends.
#[verifier::external_body]
pub(crate) fn split_at_mut_in_place<T>(slice: &mut [T], mid: usize) -> (r: (&mut [T], &mut [T]))
    requires
        mid <= old(slice)@.len(),
    ensures
        r.0@ == old(slice)@.take(mid as int),
        r.1@ == old(slice)@.skip(mid as int),
        final(slice)@ == final(r.0)@ + final(r.1)@,
        final(r.0)@.len() == mid,
        final(r.1)@.len() == old(slice)@.len() - mid,
    no_unwind
{
    slice.split_at_mut(mid)
}

/// Calls `<&[T; N]>::try_from` on a shared slice. As std documents it, the
/// conversion succeeds exactly when the slice holds `N` elements, and the
/// array reference then views those same elements.
#[verifier::external_body]
pub(crate) fn slice_as_array<T, const N: usize>(slice: &[T]) -> (r: Option<&[T; N]>)
    ensures
        r is Some <==> slice@.len() == N,
        r matches Some(a) ==> a@ == slice@,
{
    <&[T; N]>::try_from(slice).ok()
}

/// Calls `<&mut [T; N]>::try_from` on a mutable slice. As std documents it,
/// the conversion succeeds exactly when the slice holds `N` elements, and the
/// array reference then views those same elements; what is written through
/// it is what the slice holds once the borrow ends. On failure the slice is
/// handed back untouched.
#[verifier::external_body]
pub(crate) fn slice_as_array_mut<T, const N: usize>(slice: &mut [T]) -> (r: Option<&mut [T; N]>)
    ensures
        r is Some <==> old(slice)@.len() == N,
        r matches Some(a) ==> a@ == old(slice)@ && final(slice)@ == final(a)@,
        r is None ==> final(slice)@ == old(slice)@,
{
    <&mut [T; N]>::try_from(slice).ok()
}

/// The decimal digits of `n`, most significant first, with no leading zero.
pub open spec fn spec_digits(n: nat) -> Seq<char>
    decreases n,
{
    let last = (48 + n % 10) as char;
    if n < 10 {
        seq![last]
    } else {
        spec_digits(n / 10).push(last)
    }
}

/// How `n` reads in decimal: a `-` when it is negative, then its digits.
pub open spec fn spec_decimal(n: int) -> Seq<char> {
    if n < 0 {
        seq!['-'] + spec_digits((-n) as nat)
    } else {
        spec_digits(n as nat)
    }
}

/// The decimal digit `d` as text.
fn digit_text(d: u128) -> (r: &'static str)
    requires
        d < 10,
    ensures
        r@ == seq![(48 + d) as char],
{
    proof {
        reveal_strlit("0");
        reveal_strlit("1");
        reveal_strlit("2");
        reveal_strlit("3");
        reveal_strlit("4");
        reveal_strlit("5");
        reveal_strlit("6");
        reveal_strlit("7");
        reveal_strlit("8");
        reveal_strlit("9");
    }
    match d {
        0 => "0",
        1 => "1",
        2 => "2",
        3 => "3",
        4 => "4",
        5 => "5",
        6 => "6",
        7 => "7",
        8 => "8",
        _ => "9",
    }
}

/// Appends the decimal digits of `n` to `text`.
fn push_digits(text: &mut String, n: u128)
    ensures
        final(text)@ == old(text)@ + spec_digits(n as nat),
    decreases n,
{
    if n >= 10 {
        push_digits(text, n / 10);
    }
    text.append(digit_text(n % 10));
    proof {
        assert(old(text)@ + spec_digits(n as nat) =~= (if n >= 10 {
            old(text)@ + spec_digits((n / 10) as nat)
        } else {
            old(text)@
        }) + seq![(48 + n % 10) as char]);
    }
}

/// Writes `n` in decimal: a leading `-` when it is negative, then its digits
/// with no leading zero.
pub(crate) fn decimal_string(n: i128) -> (r: String)
    ensures
        r@ == spec_decimal(n as int),
{
    let mut text = String::new();
    if n < 0 {
        text.append("-");
        proof {
            reveal_strlit("-");
        }
        let magnitude: u128 = (-(n + 1)) as u128 + 1;
        push_digits(&mut text, magnitude);
    } else {
        push_digits(&mut text, n as u128);
    }
    text
}

/// Calls `RangeInclusive::start`, which returns the lower bound of `a..=b`,
/// here equated with the `start` of vstd's view of the range: the bound the
/// range was built with. (std leaves the value unspecified once the range
/// has been iterated to exhaustion; nothing in this crate iterates one.)
#[verifier::external_body]
pub(crate) fn range_inclusive_start(range: &core::ops::RangeInclusive<usize>) -> (r: &usize)
    ensures
        *r == range@.start,
{
    range.start()
}

/// Calls `RangeInclusive::end`, which returns the upper bound of `a..=b`,
/// here equated with the `end` of vstd's view of the range: the bound the
/// range was built with. (std leaves the value unspecified once the range
/// has been iterated to exhaustion; nothing in this crate iterates one.)
#[verifier::external_body]
pub(crate) fn range_inclusive_end(range: &core::ops::RangeInclusive<usize>) -> (r: &usize)
    ensures
        *r == range@.end,
{
    range.end()
}

/// Calls `<&mut [T] as Default>::default`, which, as std documents it,
/// creates an empty mutable slice.
#[verifier::external_body]
pub(crate) fn empty_slice_mut<'a, T>() -> (r: &'a mut [T])
    ensures
        r@.len() == 0,
        final(r)@.len() == 0,
{
    <&'a mut [T] as Default>::default()
}

/// The end bound of `a..=b` as a range: `b` is included, unless the range
/// has been iterated to exhaustion, when it is excluded (so the exhausted
/// range contains nothing). vstd's `contains` of a `RangeInclusive` reads
/// the range the same way.
pub open spec fn spec_inclusive_end_bound(range: core::ops::RangeInclusive<usize>) -> Bound<usize> {
    if range@.exhausted {
        Bound::Excluded(range@.end)
    } else {
        Bound::Included(range@.end)
    }
}

/// Calls `<RangeInclusive<usize> as RangeBounds<usize>>::end_bound`, the
/// end bound that the range describes: its upper bound, included while the
/// range is not exhausted and excluded once it is.
#[verifier::external_body]
pub(crate) fn range_inclusive_end_bound(range: &core::ops::RangeInclusive<usize>) -> (r: Bound<
    &usize,
>)
    ensures
        spec_bound_copied(r) == spec_inclusive_end_bound(*range),
{
    core::ops::RangeBounds::end_bound(range)
}

} // verus!
