use lib::slide::peek_back;
use lib::Slide;

#[test]
fn from_parts_checks_offset() {
    let v = [1, 2, 3];
    assert!(Slide::from_parts(&v[..], 3).is_some());
    assert!(Slide::from_parts(&v[..], 4).is_none());
    let s = Slide::from_parts(&v[..], 1).unwrap();
    assert_eq!(s.parts(), (&v[..], 1));
    assert_eq!(s.offset(), 1);
    assert_eq!(s.source(), &v[..]);
}

#[test]
fn split_consumed_remaining() {
    let v = [1, 2, 3, 4];
    let s = Slide::from_parts(&v[..], 1).unwrap();
    assert_eq!(s.split(), (&[1][..], &[2, 3, 4][..]));
    assert_eq!(s.consumed(), &[1]);
    assert_eq!(s.remaining(), &[2, 3, 4]);
    let n = Slide::new(&v[..]);
    assert_eq!(n.offset(), 0);
    assert_eq!(n.consumed(), &[] as &[i32]);
}

#[test]
fn set_offset_variants() {
    let v = [1, 2, 3];
    let mut s = Slide::new(&v[..]);
    assert!(s.set_offset_checked(2));
    assert_eq!(s.offset(), 2);
    assert!(!s.set_offset_checked(4));
    assert_eq!(s.offset(), 2);
    s.set_offset(3);
    assert_eq!(s.offset(), 3);
    s.set_offset_unchecked(0);
    assert_eq!(s.offset(), 0);
}

#[test]
fn peek_forward_and_back() {
    let v = [1, 2, 3, 4, 5];
    let s = Slide::from_parts(&v[..], 2).unwrap();
    assert_eq!(s.peek(2), &[3, 4]);
    assert_eq!(s.peek_unchecked(3), &[3, 4, 5]);
    assert_eq!(s.peek_checked(4), None);
    assert_eq!(s.peek_back(2), &[1, 2]);
    assert_eq!(s.peek_back_unchecked(1), &[2]);
    assert_eq!(s.peek_back_checked(3), None);
    assert_eq!(s.offset(), 2);
}

#[test]
fn advance_and_rewind() {
    let v = [1, 2, 3, 4, 5];
    let mut s = Slide::new(&v[..]);
    assert_eq!(s.advance(2), &[1, 2]);
    assert_eq!(s.offset(), 2);
    assert_eq!(s.advance_checked(4), None);
    assert_eq!(s.offset(), 2);
    assert_eq!(s.advance_unchecked(3), &[3, 4, 5]);
    assert_eq!(s.offset(), 5);
    assert_eq!(s.rewind(3), &[3, 4, 5]);
    assert_eq!(s.offset(), 2);
    assert_eq!(s.rewind_checked(3), None);
    assert_eq!(s.rewind_unchecked(2), &[1, 2]);
    assert_eq!(s.offset(), 0);
}

#[test]
fn advance_then_rewind_round_trip() {
    let v = [10, 20, 30, 40];
    let mut s = Slide::from_parts(&v[..], 1).unwrap();
    let before = s;
    let advanced = s.advance(2);
    let rewound = s.rewind(2);
    assert_eq!(advanced, rewound);
    assert_eq!(s.parts(), before.parts());
    assert!(s == before);
}

#[test]
fn peek_back_rewinds_by_tens() {
    let v = [(); 37];
    let mut s = Slide::from_parts(&v[..], 37).unwrap();
    peek_back(&mut s);
    assert_eq!(s.offset(), 7);
    let mut t = Slide::from_parts(&v[..], 9).unwrap();
    peek_back(&mut t);
    assert_eq!(t.offset(), 9);
    let c = t.clone();
    assert_eq!(c.offset(), 9);
}
