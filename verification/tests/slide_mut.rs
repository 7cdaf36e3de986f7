use lib::{Direction, Slide, SlideMut};

#[test]
fn with_offset_checks() {
    let mut v = [1, 2, 3];
    assert!(SlideMut::with_offset(&mut v[..], 4).is_none());
    let s = SlideMut::with_offset(&mut v[..], 2).unwrap();
    assert_eq!(s.offset(), 2);
    assert_eq!(s.split(), (&[1, 2][..], &[3][..]));
}

#[test]
fn views_of_the_buffer() {
    let mut v = [1, 2, 3, 4];
    let s = SlideMut::with_offset(&mut v[..], 1).unwrap();
    assert_eq!(s.source(), &[1, 2, 3, 4]);
    assert_eq!(s.consumed(), &[1]);
    assert_eq!(s.remaining(), &[2, 3, 4]);
    let slide = s.into_slide();
    assert_eq!(slide.offset(), 1);
    assert_eq!(slide.remaining(), &[2, 3, 4]);
}

#[test]
fn mutable_views_write_through() {
    let mut v = [1, 2, 3, 4];
    let mut s = SlideMut::with_offset(&mut v[..], 2).unwrap();
    s.remaining_mut()[0] = 30;
    s.consumed_mut()[1] = 20;
    s.source_mut()[0] = 10;
    {
        let (c, r) = s.split_mut();
        c[0] += 1;
        r[1] = 40;
    }
    assert_eq!(s.offset(), 2);
    assert_eq!(s.source(), &[11, 20, 30, 40]);
    let (c, r) = s.into_split();
    c[0] = 0;
    r[0] = 0;
    assert_eq!(v, [0, 20, 0, 40]);
}

#[test]
fn into_parts() {
    let mut v = [1, 2, 3];
    assert_eq!(SlideMut::with_offset(&mut v[..], 1).unwrap().into_consumed(), &mut [1]);
    assert_eq!(SlideMut::with_offset(&mut v[..], 1).unwrap().into_remaining(), &mut [2, 3]);
    assert_eq!(SlideMut::new(&mut v[..]).into_source(), &mut [1, 2, 3]);
}

#[test]
fn sliding() {
    let mut v = [1, 2, 3, 4, 5];
    let mut s = SlideMut::new(&mut v[..]);
    s.slide(Direction::Right, 3);
    assert_eq!(s.offset(), 3);
    assert!(!s.slide_checked(Direction::Right, 3));
    assert_eq!(s.offset(), 3);
    assert!(s.slide_checked(Direction::Left, 2));
    assert_eq!(s.offset(), 1);
    s.slide_unchecked(Direction::Right, 4);
    assert_eq!(s.offset(), 5);
    assert_eq!(s.available(Direction::Right), 0);
    assert_eq!(s.available(Direction::Left), 5);
    assert!(s.set_offset_checked(2));
    assert!(!s.set_offset_checked(6));
    s.set_offset(4);
    assert_eq!(s.offset(), 4);
    s.set_offset_unchecked(1);
    assert_eq!(s.offset(), 1);
}

#[test]
fn peeking_both_ways() {
    let mut v = [1, 2, 3, 4, 5];
    let s = SlideMut::with_offset(&mut v[..], 2).unwrap();
    assert_eq!(s.peek_slice(Direction::Right, 2), &[3, 4]);
    assert_eq!(s.peek_slice(Direction::Left, 2), &[1, 2]);
    assert_eq!(s.peek_slice_unchecked(Direction::Left, 1), &[2]);
    assert_eq!(s.peek_slice_checked(Direction::Left, 3), None);
    assert_eq!(s.peek_slice_checked(Direction::Right, 4), None);
    assert_eq!(*s.peek(Direction::Right), 3);
    assert_eq!(*s.peek(Direction::Left), 2);
    assert_eq!(*s.peek_unchecked(Direction::Right), 3);
    assert_eq!(s.peek_checked(Direction::Left), Some(&2));
}

#[test]
fn mutable_peeks() {
    let mut v = [1, 2, 3, 4, 5];
    let mut s = SlideMut::with_offset(&mut v[..], 2).unwrap();
    *s.peek_mut(Direction::Right) = 30;
    *s.peek_mut(Direction::Left) = 20;
    s.peek_mut_slice(Direction::Right, 3)[2] = 50;
    s.peek_mut_slice_unchecked(Direction::Left, 2)[0] = 10;
    *s.peek_mut_unchecked(Direction::Right) += 1;
    assert!(s.peek_mut_slice_checked(Direction::Right, 4).is_none());
    assert!(s.peek_mut_checked(Direction::Left).is_some());
    if let Some(x) = s.peek_mut_checked(Direction::Left) {
        *x += 2;
    }
    assert_eq!(s.offset(), 2);
    assert_eq!(v, [10, 22, 31, 4, 50]);
    let mut empty: [i32; 0] = [];
    let mut e = SlideMut::new(&mut empty[..]);
    assert!(e.peek_mut_checked(Direction::Right).is_none());
    assert!(e.peek_checked(Direction::Left).is_none());
}

#[test]
fn array_peeks() {
    let mut v = [1, 2, 3, 4, 5];
    let mut s = SlideMut::with_offset(&mut v[..], 2).unwrap();
    assert_eq!(s.peek_array::<3>(Direction::Right), &[3, 4, 5]);
    assert_eq!(s.peek_array::<2>(Direction::Left), &[1, 2]);
    assert_eq!(s.peek_array_unchecked::<1>(Direction::Left), &[2]);
    assert_eq!(s.peek_array_checked::<0>(Direction::Right), Some(&[]));
    assert!(s.peek_array_checked::<3>(Direction::Left).is_none());
    assert!(s.peek_array_checked::<4>(Direction::Right).is_none());
    s.peek_mut_array::<2>(Direction::Left)[1] = 20;
    s.peek_mut_array_unchecked::<3>(Direction::Right)[0] = 30;
    assert!(s.peek_mut_array_checked::<4>(Direction::Right).is_none());
    if let Some(a) = s.peek_mut_array_checked::<3>(Direction::Right) {
        a[2] = 50;
    }
    assert_eq!(s.offset(), 2);
    assert_eq!(v, [1, 20, 30, 4, 50]);
}

#[test]
fn cursors_compare() {
    let mut a = [1, 2, 3];
    let mut b = [1, 2, 3];
    let mut c = [1, 5, 3];
    let x = SlideMut::with_offset(&mut a[..], 1).unwrap();
    let y = SlideMut::with_offset(&mut b[..], 1).unwrap();
    assert!(x == y);
    assert_eq!(x.partial_cmp(&y), Some(std::cmp::Ordering::Equal));
    let z = SlideMut::with_offset(&mut c[..], 1).unwrap();
    assert!(x != z);
    assert_eq!(x.partial_cmp(&z), Some(std::cmp::Ordering::Less));
    assert_eq!(z.partial_cmp(&x), Some(std::cmp::Ordering::Greater));
    let d = [1, 2, 3];
    let shared = Slide::from_parts(&d[..], 1).unwrap();
    assert!(x == shared);
    assert_eq!(x.partial_cmp(&shared), Some(std::cmp::Ordering::Equal));
    let moved = Slide::from_parts(&d[..], 2).unwrap();
    assert!(x != moved);
    assert_eq!(x.partial_cmp(&moved), Some(std::cmp::Ordering::Less));
    let f = [1.0, f64::NAN];
    let mut g = [1.0, f64::NAN];
    let nan = SlideMut::new(&mut g[..]);
    assert_eq!(nan.partial_cmp(&Slide::from_parts(&f[..], 0).unwrap()), None);
}

#[test]
fn default_and_from() {
    let d: SlideMut<'_, u8> = SlideMut::default();
    assert_eq!(d.offset(), 0);
    assert_eq!(d.source(), &[] as &[u8]);
    let mut v = [4, 5];
    let mut s = SlideMut::from(&mut v[..]);
    assert_eq!(s.offset(), 0);
    *s.peek_mut(Direction::Right) = 40;
    assert_eq!(v, [40, 5]);
}
