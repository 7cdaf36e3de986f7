use lib::bounds::{as_bounds, into_bounds, to_bounds, SliceBounds, SliceRange, SliceRangeError};
use lib::util::{bound_copied, bound_ref, likely, unchecked_sub, unlikely, Bound};

#[test]
fn try_new_accepts_ordered_endpoints() {
    let r = SliceRange::try_new(2, 5).unwrap();
    assert_eq!(r.start(), 2);
    assert_eq!(r.end(), 5);
    assert_eq!(r.len(), 3);
    assert_eq!(*r.start_ref(), 2);
    assert_eq!(*r.end_ref(), 5);
}

#[test]
fn try_new_rejects_start_past_end() {
    assert_eq!(
        SliceRange::try_new(5, 2),
        Err(SliceRangeError::StartTooLarge { start: 5, end: 2 })
    );
}

#[test]
fn empty_range_has_equal_endpoints() {
    let r = SliceRange::new(4, 4);
    assert_eq!(r.len(), 0);
    assert_eq!(SliceRange::default(), SliceRange::up_to(0));
    assert_eq!(SliceRange::up_to(7).start(), 0);
    assert_eq!(SliceRange::up_to(7).end(), 7);
    assert_eq!(SliceRange::new_unchecked(1, 3), SliceRange::new(1, 3));
}

#[test]
fn bounds_of_a_slice_range() {
    let r = SliceRange::new(1, 4);
    assert_eq!(to_bounds(&r), (Bound::Included(1), Bound::Excluded(4)));
    assert_eq!(r.to_bounds(), (Bound::Included(1), Bound::Excluded(4)));
    assert_eq!(into_bounds(r), (Bound::Included(1), Bound::Excluded(4)));
    let (s, e) = as_bounds(&r);
    assert_eq!((bound_copied(s), bound_copied(e)), (Bound::Included(1), Bound::Excluded(4)));
    let from: (Bound<usize>, Bound<usize>) = r.into();
    assert_eq!(from, (Bound::Included(1), Bound::Excluded(4)));
    let range: core::ops::Range<usize> = r.into();
    assert_eq!(range, 1..4);
    assert_eq!(r.to_range(), 1..4);
}

#[test]
fn bounds_of_std_ranges_and_tuples() {
    assert_eq!(to_bounds(&(3..9)), (Bound::Included(3), Bound::Excluded(9)));
    let t = (Bound::Excluded(2), Bound::Unbounded);
    assert_eq!(into_bounds(t), t);
}

#[test]
fn slice_bounds_conversions() {
    assert_eq!(SliceRange::try_from_slice_bounds(&(2..6), 10), Ok(SliceRange::new(2, 6)));
    let full = (Bound::Unbounded, Bound::Unbounded);
    assert_eq!(SliceRange::try_from_slice_bounds(&full, 10), Ok(SliceRange::new(0, 10)));
    let incl = (Bound::Excluded(1), Bound::Included(3));
    assert_eq!(SliceRange::try_from_slice_bounds(&incl, 10), Ok(SliceRange::new(2, 4)));
    assert_eq!(SliceRange::from_slice_bounds(&incl, 4), SliceRange::new(2, 4));
    assert_eq!(SliceRange::from_slice_bounds_unchecked(&incl, 4), SliceRange::new(2, 4));
    let r = SliceRange::new(3, 8);
    assert_eq!(SliceRange::try_from_slice_bounds(&r, 8), Ok(r));
}

#[test]
fn slice_bounds_errors() {
    let so = (Bound::Excluded(usize::MAX), Bound::Unbounded);
    assert_eq!(SliceRange::try_from_slice_bounds(&so, 10), Err(SliceRangeError::StartOverflow));
    let eo = (Bound::Included(0), Bound::Included(usize::MAX));
    assert_eq!(SliceRange::try_from_slice_bounds(&eo, 10), Err(SliceRangeError::EndOverflow));
    assert_eq!(
        SliceRange::try_from_slice_bounds(&(6..2), 10),
        Err(SliceRangeError::StartTooLarge { start: 6, end: 2 })
    );
    assert_eq!(
        SliceRange::try_from_slice_bounds(&(2..11), 10),
        Err(SliceRangeError::EndTooLarge { end: 11, len: 10 })
    );
    let unb = (Bound::Included(11), Bound::Unbounded);
    assert_eq!(
        SliceRange::try_from_slice_bounds(&unb, 10),
        Err(SliceRangeError::StartTooLarge { start: 11, end: 10 })
    );
}

#[test]
fn range_bounds_conversions() {
    let s = 2usize;
    let e = 5usize;
    assert_eq!(
        SliceRange::try_from_range_bounds(Bound::Included(&s), Bound::Included(&e), 10),
        Ok(SliceRange::new(2, 6))
    );
    assert_eq!(
        SliceRange::from_range_bounds(Bound::Unbounded, Bound::Excluded(&e), 10),
        SliceRange::new(0, 5)
    );
    assert_eq!(
        SliceRange::from_range_bounds_unchecked(Bound::Included(&s), Bound::Unbounded, 10),
        SliceRange::new(2, 10)
    );
    assert_eq!(
        SliceRange::try_from_range_bounds(Bound::Included(&e), Bound::Excluded(&s), 10),
        Err(SliceRangeError::StartTooLarge { start: 5, end: 2 })
    );
}

#[test]
fn util_helpers() {
    let b = Bound::Included(3usize);
    assert_eq!(bound_copied(bound_ref(&b)), b);
    assert_eq!(bound_copied(bound_ref(&Bound::<usize>::Unbounded)), Bound::Unbounded);
    assert!(likely(true));
    assert!(!unlikely(false));
    assert_eq!(unchecked_sub(7, 3), 4);
}

#[test]
fn slice_range_error_messages() {
    assert_eq!(SliceRangeError::StartOverflow.message(), "range start would overflow");
    assert_eq!(SliceRangeError::EndOverflow.message(), "range end would overflow");
    assert_eq!(
        SliceRangeError::StartTooLarge { start: 3, end: 1 }.message(),
        "range start is greater than end"
    );
    assert_eq!(
        SliceRangeError::EndTooLarge { end: 3, len: 1 }.message(),
        "range end is greater than slice length"
    );
}

#[test]
fn slice_range_error_text() {
    assert_eq!(SliceRangeError::StartOverflow.to_string(), "range start would overflow");
    assert_eq!(SliceRangeError::EndOverflow.to_string(), "range end would overflow");
    assert_eq!(
        SliceRangeError::StartTooLarge { start: 12, end: 7 }.to_string(),
        "range start 12 is greater than end 7"
    );
    assert_eq!(
        SliceRangeError::EndTooLarge { end: 10, len: 0 }.to_string(),
        "range end 10 is greater than slice length 0"
    );
    assert_eq!(
        SliceRangeError::EndTooLarge { end: usize::MAX, len: 3 }.to_string(),
        format!("range end {} is greater than slice length 3", usize::MAX)
    );
}

#[test]
fn open_ended_slice_bounds() {
    assert_eq!(to_bounds(&(..4)), (Bound::Unbounded, Bound::Excluded(4)));
    assert_eq!(to_bounds(&(..=4)), (Bound::Unbounded, Bound::Included(4)));
    assert_eq!(to_bounds(&(4..)), (Bound::Included(4), Bound::Unbounded));
    assert_eq!(to_bounds(&(..)), (Bound::Unbounded, Bound::Unbounded));
    assert_eq!(SliceRange::try_from_slice_bounds(&(..4), 10), Ok(SliceRange::new(0, 4)));
    assert_eq!(SliceRange::try_from_slice_bounds(&(..=4), 10), Ok(SliceRange::new(0, 5)));
    assert_eq!(SliceRange::try_from_slice_bounds(&(4..), 10), Ok(SliceRange::new(4, 10)));
    assert_eq!(SliceRange::try_from_slice_bounds(&(..), 10), Ok(SliceRange::new(0, 10)));
    assert_eq!(
        SliceRange::try_from_slice_bounds(&(11..), 10),
        Err(SliceRangeError::StartTooLarge { start: 11, end: 10 })
    );
    assert_eq!(
        SliceRange::try_from_slice_bounds(&(..=usize::MAX), 10),
        Err(SliceRangeError::EndOverflow)
    );
    let (s, e) = as_bounds(&(2..));
    assert_eq!((s, e), (Bound::Included(&2), Bound::Unbounded));
}

#[test]
fn conversions_into_and_out_of_slice_range() {
    assert_eq!(SliceRange::try_from(2..5), Ok(SliceRange::new(2, 5)));
    assert_eq!(
        SliceRange::try_from(5..2),
        Err(SliceRangeError::StartTooLarge { start: 5, end: 2 })
    );
    assert_eq!(SliceRange::try_from(&(3..3)), Ok(SliceRange::new(3, 3)));
    assert_eq!(SliceRange::try_from(1..=3), Ok(SliceRange::new(1, 4)));
    assert_eq!(SliceRange::try_from(&(4..=3)), Ok(SliceRange::new(4, 4)));
    assert_eq!(
        SliceRange::try_from(5..=3),
        Err(SliceRangeError::StartTooLarge { start: 5, end: 4 })
    );
    assert_eq!(SliceRange::try_from(0..=usize::MAX), Err(SliceRangeError::EndOverflow));
    let r = SliceRange::new(1, 3);
    assert_eq!(SliceRange::from(&r), r);
    assert_eq!(core::ops::Range::<usize>::from(&r), 1..3);
    assert_eq!(
        <(Bound<usize>, Bound<usize>)>::from(&r),
        (Bound::Included(1), Bound::Excluded(3))
    );
    assert_eq!(core::ops::Range::<&usize>::from(&r), &1..&3);
    assert_eq!(
        <(Bound<&usize>, Bound<&usize>)>::from(&r),
        (Bound::Included(&1), Bound::Excluded(&3))
    );
}

#[test]
fn indexing_by_slice_range() {
    let v = [1, 2, 3, 4];
    let r = SliceRange::new(1, 3);
    assert_eq!(&v[r], &[2, 3]);
    assert_eq!(&v[&r], &[2, 3]);
    assert_eq!(&v[SliceRange::up_to(4)], &v[..]);
    let s = "aé!";
    assert_eq!(&s[r], "é");
    assert_eq!(&s[&SliceRange::new(3, 4)], "!");
}

#[test]
fn exhausted_inclusive_range_excludes_its_end() {
    let mut r = 3..=3;
    assert_eq!(r.next(), Some(3));
    assert!(r.is_empty());
    assert_eq!(SliceRange::try_from(&r), Ok(SliceRange::new(3, 3)));
    assert_eq!(SliceRange::try_from(r), Ok(SliceRange::new(3, 3)));
    let fresh = 3..=3;
    assert_eq!(SliceRange::try_from(&fresh), Ok(SliceRange::new(3, 4)));
}
