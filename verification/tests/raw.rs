use lib::raw::{Lengths, RawSlide};
use lib::slice::{SplitError, StrSplitError};

#[test]
fn raw_slide_over_a_slice() {
    let v = [1u8, 2, 3, 4];
    let mut r = RawSlide::new(&v[..], 1).ok().unwrap();
    assert_eq!(r.consumed_len(), 1);
    assert_eq!(r.remaining_len(), 3);
    assert_eq!(r.entire_len(), 4);
    assert_eq!(r.entire_ref(), &v[..]);
    assert_eq!(r.split_ref(), (&[1u8][..], &[2u8, 3, 4][..]));
    assert_eq!(r.consumed_ref(), &[1u8]);
    assert_eq!(r.remaining_ref(), &[2u8, 3, 4]);
    assert_eq!(r.advance(2), &[2u8, 3]);
    assert_eq!(r.consumed_len(), 3);
    assert_eq!(r.rewind(3), &[1u8, 2, 3]);
    assert_eq!(r.consumed_len(), 0);
    assert!(RawSlide::new(&v[..], 5).is_err());
    let lens = r.lengths();
    assert_eq!((lens.source(), lens.consumed(), lens.remaining()), (4, 0, 4));
}

#[test]
fn raw_slide_over_a_str_stays_on_boundaries() {
    let s = "aé€!"; // 61 c3 a9 e2 82 ac 21
    assert!(RawSlide::new(s, 2).is_err());
    let mut r = RawSlide::new(s, 1).ok().unwrap();
    assert_eq!(r.try_peek_ahead(2).ok(), Some("é"));
    match r.try_advance(1) {
        Err(SplitError::Other(e)) => assert_eq!(e, StrSplitError::InvalidCharBoundary { index: 1 }),
        _ => panic!("expected an invalid character boundary"),
    }
    assert_eq!(r.consumed_len(), 1);
    assert_eq!(r.try_advance(5).ok(), Some("é€"));
    assert_eq!(r.consumed_len(), 6);
    assert_eq!(r.peek_ahead(1), "!");
    assert_eq!(r.peek_behind(3), "€");
    match r.try_rewind(2) {
        Err(SplitError::Other(e)) => assert_eq!(e, StrSplitError::InvalidCharBoundary { index: 4 }),
        _ => panic!("expected an invalid character boundary"),
    }
    assert_eq!(r.try_rewind(3).ok(), Some("€"));
    assert_eq!(r.remaining_ref(), "€!");
}

#[test]
fn raw_slide_out_of_bounds_reports_signed_indices() {
    let v = [1u8, 2, 3];
    let mut r = RawSlide::new(&v[..], 1).ok().unwrap();
    match r.try_peek_ahead(5) {
        Err(SplitError::OutOfBounds { index, len }) => {
            assert_eq!(index.as_positive(), Ok(5));
            assert_eq!(len, 2);
        }
        _ => panic!("expected an out-of-bounds error"),
    }
    match r.try_rewind(4) {
        Err(SplitError::OutOfBounds { index, len }) => {
            assert_eq!(index.as_negative(), Ok(-3));
            assert_eq!(len, 1);
        }
        _ => panic!("expected an out-of-bounds error"),
    }
    match r.try_peek_behind(usize::MAX) {
        Err(SplitError::OutOfBounds { index, .. }) => {
            assert_eq!(index.as_negative(), Ok(isize::MIN));
        }
        _ => panic!("expected an out-of-bounds error"),
    }
    assert_eq!(r.consumed_len(), 1);
}

#[test]
fn raw_slide_unchecked_variants() {
    let s = "héllo";
    let mut r = RawSlide::new_unchecked(s, 0);
    assert_eq!(r.advance_unchecked(3), "hé");
    assert_eq!(r.peek_ahead_unchecked(2), "ll");
    assert_eq!(r.peek_behind_unchecked(2), "é");
    assert_eq!(r.rewind_unchecked(3), "hé");
    let c = r.clone();
    assert_eq!(c.consumed_len(), 0);
}

#[test]
fn lengths_add_up() {
    let l = Lengths::new_unchecked(10, 3, 7);
    assert_eq!(l.source(), 10);
    assert_eq!(l.consumed(), 3);
    assert_eq!(l.remaining(), 7);
    l.compiler_hints();
}
