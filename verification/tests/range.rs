use lib::range::{as_bounds, into_bounds, into_range, into_range_checked, into_range_unchecked};
use lib::range::{IndexRange, RangeError};
use lib::util::{bound_copied, Bound};

#[test]
fn index_range_new() {
    let r = IndexRange::new(1, 3).unwrap();
    assert_eq!((r.start(), r.end(), r.len()), (1, 3, 2));
    assert_eq!((*r.start_ref(), *r.end_ref()), (1, 3));
    assert_eq!(IndexRange::new(3, 1), None);
    assert_eq!(IndexRange::default(), IndexRange::new(0, 0).unwrap());
    let range: core::ops::Range<usize> = r.into();
    assert_eq!(range, 1..3);
}

#[test]
fn range_bounds() {
    let r = IndexRange::new(2, 4).unwrap();
    let (s, e) = as_bounds(&r);
    assert_eq!((bound_copied(s), bound_copied(e)), (Bound::Included(2), Bound::Excluded(4)));
    assert_eq!(into_bounds(0..5), (Bound::Included(0), Bound::Excluded(5)));
}

#[test]
fn into_range_in_bounds() {
    let r = into_range(2..5, ..8);
    assert_eq!((r.start(), r.end()), (2, 5));
    let r = into_range((Bound::Unbounded, Bound::Included(3)), ..8);
    assert_eq!((r.start(), r.end()), (0, 4));
    let r = into_range_unchecked((Bound::Excluded(3), Bound::Unbounded), ..8);
    assert_eq!((r.start(), r.end()), (4, 8));
}

#[test]
fn into_range_checked_rejects() {
    assert_eq!(into_range_checked(2..9, ..8), None);
    assert_eq!(into_range_checked(5..2, ..8), None);
    assert_eq!(into_range_checked((Bound::Excluded(usize::MAX), Bound::Unbounded), ..8), None);
    assert_eq!(into_range_checked((Bound::Unbounded, Bound::Included(usize::MAX)), ..8), None);
    assert_eq!(into_range_checked(2..8, ..8), IndexRange::new(2, 8));
}

#[test]
fn range_error_messages() {
    assert_eq!(RangeError::StartOverflow.message(), "start overflow");
    assert_eq!(RangeError::EndOverflow.message(), "end overflow");
    assert_eq!(RangeError::StartLarge.message(), "start > end");
    assert_eq!(RangeError::EndLarge.message(), "end > len");
}

#[test]
fn open_ended_ranges() {
    let r = into_range(..3, ..8);
    assert_eq!((r.start(), r.end()), (0, 3));
    let r = into_range(..=3, ..8);
    assert_eq!((r.start(), r.end()), (0, 4));
    let r = into_range(5.., ..8);
    assert_eq!((r.start(), r.end()), (5, 8));
    let r = into_range(.., ..8);
    assert_eq!((r.start(), r.end()), (0, 8));
    assert_eq!(into_range_checked(9.., ..8), None);
    assert_eq!(into_range_checked(..=8, ..8), None);
    assert_eq!(into_range_checked(..=usize::MAX, ..usize::MAX), None);
    assert_eq!(into_bounds(..=7), (Bound::Unbounded, Bound::Included(7)));
    assert_eq!(into_bounds(3..), (Bound::Included(3), Bound::Unbounded));
    assert_eq!(into_bounds(..), (Bound::Unbounded, Bound::Unbounded));
    assert_eq!(into_bounds(..4), (Bound::Unbounded, Bound::Excluded(4)));
}

#[test]
fn inclusive_ranges() {
    let r = 2..=5;
    let (s, e) = as_bounds(&r);
    assert_eq!((s, e), (Bound::Included(&2), Bound::Included(&5)));
    assert_eq!(into_bounds(2..=5), (Bound::Included(2), Bound::Included(5)));
    assert_eq!(into_range_checked(2..=4, ..5), IndexRange::new(2, 5));
    assert_eq!(into_range_checked(2..=5, ..5), None);
    assert_eq!(into_range_checked(0..=usize::MAX, ..5), None);
    let r = into_range(3..=3, ..4);
    assert_eq!((r.start(), r.end()), (3, 4));
}

#[test]
fn indexing_by_index_range() {
    let v = [1, 2, 3, 4];
    assert_eq!(&v[IndexRange::new(1, 3).unwrap()], &[2, 3]);
    assert_eq!(&v[IndexRange::new(4, 4).unwrap()], &[] as &[i32]);
    let s = "aé!";
    assert_eq!(&s[IndexRange::new(1, 3).unwrap()], "é");
    assert_eq!(&s[IndexRange::new(0, 4).unwrap()], "aé!");
}

#[test]
fn index_range_iterates() {
    let r = IndexRange::new(2, 5).unwrap();
    assert_eq!(r.into_iter().collect::<Vec<usize>>(), vec![2, 3, 4]);
    let mut total = 0;
    for i in IndexRange::new(0, 4).unwrap() {
        total += i;
    }
    assert_eq!(total, 6);
}
