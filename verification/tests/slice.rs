use std::cmp::Ordering;
use std::hash::{Hash, Hasher};
use lib::slice::{as_elems_mut, as_elems_mut_unchecked, AsElemsError};
use lib::slice::{
    from_elems_mut, from_elems_mut_unchecked, split_at_mut, split_at_mut_unchecked,
    try_from_elems_mut, try_split_at_mut,
};
use lib::slice::{
    as_elems, as_elems_unchecked, from_elems, from_elems_unchecked, is_empty, len, split_at,
    split_at_unchecked, try_as_elems, try_as_elems_mut, try_from_elems, try_split_at,
    validate_split_at, FromSplitErrorFailure, OobIndex, Slice, SplitError, StrAsElemsError,
    StrSplitError,
};

#[test]
fn slice_len_and_elems() {
    let v = [1u32, 2, 3];
    let s: &[u32] = &v;
    assert_eq!(len(s), 3);
    assert!(!is_empty(s));
    assert!(is_empty::<[u32]>(&[]));
    assert_eq!(as_elems(s), s);
    assert_eq!(as_elems_unchecked(s), s);
    assert_eq!(try_as_elems(s).ok(), Some(s));
    let back: &[u32] = from_elems(s);
    assert_eq!(back, s);
    let back: &[u32] = from_elems_unchecked(s);
    assert_eq!(back, s);
    assert!(try_from_elems::<[u32]>(s).is_ok());
}

#[test]
fn str_len_and_elems() {
    let s = "héllo";
    assert_eq!(len(s), 6);
    assert!(!is_empty(s));
    assert!(is_empty(""));
    assert_eq!(as_elems(s), s.as_bytes());
    let back: &str = from_elems("abc".as_bytes());
    assert_eq!(back, "abc");
    let back: &str = from_elems_unchecked("abc".as_bytes());
    assert_eq!(back, "abc");
    assert!(try_from_elems::<str>(&[0xff, 0x00]).is_err());
    assert_eq!(try_from_elems::<str>(&[0x61, 0x62]).ok(), Some("ab"));
}

#[test]
fn mutable_elements() {
    let mut v = [1u8, 2, 3];
    {
        let s: &mut [u8] = &mut v;
        let e = try_as_elems_mut(s).ok().unwrap();
        e[0] = 9;
    }
    assert_eq!(v, [9, 2, 3]);
    let mut owned = String::from("abc");
    let s: &mut str = owned.as_mut_str();
    match try_as_elems_mut(s) {
        Err(e) => assert_eq!(e.0, StrAsElemsError::UnsafeToMutablyBorrow),
        Ok(_) => panic!("a string's bytes must not be borrowed mutably"),
    }
}

#[test]
fn slice_split_validation() {
    let v = [1u8, 2, 3];
    let s: &[u8] = &v;
    assert!(validate_split_at(s, 0).is_ok());
    assert!(validate_split_at(s, 3).is_ok());
    match validate_split_at(s, 4) {
        Err(SplitError::OutOfBounds { index, len }) => {
            assert_eq!(index.as_positive(), Ok(4));
            assert_eq!(len, 3);
        }
        _ => panic!("expected an out-of-bounds error"),
    }
    let (a, b) = split_at(s, 1);
    assert_eq!((a, b), (&[1u8][..], &[2u8, 3][..]));
    let (a, b) = split_at_unchecked(s, 3);
    assert_eq!((a.len(), b.len()), (3, 0));
    assert!(try_split_at(s, 5).is_err());
}

#[test]
fn str_split_validation() {
    let s = "aé!"; // bytes: 61 c3 a9 21
    assert!(validate_split_at(s, 0).is_ok());
    assert!(validate_split_at(s, 1).is_ok());
    match validate_split_at(s, 2) {
        Err(SplitError::Other(e)) => {
            assert_eq!(e, StrSplitError::InvalidCharBoundary { index: 2 });
            assert_eq!(e.index(), 2);
        }
        _ => panic!("expected an invalid character boundary"),
    }
    assert!(validate_split_at(s, 3).is_ok());
    assert!(validate_split_at(s, 4).is_ok());
    match validate_split_at(s, 9) {
        Err(SplitError::OutOfBounds { index, len }) => {
            assert_eq!(index.as_positive(), Ok(9));
            assert_eq!(len, 4);
        }
        _ => panic!("expected an out-of-bounds error"),
    }
    let (a, b) = try_split_at(s, 3).ok().unwrap();
    assert_eq!((a, b), ("aé", "!"));
    let err = try_split_at(s, 2).err().unwrap();
    assert_eq!(err.index(), Some(2));
    let err = try_split_at(s, 7).err().unwrap();
    assert_eq!(err.index(), Some(7));
    let below: SplitError<str> = SplitError::OutOfBounds {
        index: OobIndex::from_negative(-3).unwrap(),
        len: 4,
    };
    assert_eq!(below.index(), None);
    let past: SplitError<[u8]> = SplitError::OutOfBounds {
        index: OobIndex::from_positive(8).unwrap(),
        len: 4,
    };
    assert_eq!(past.index(), Some(8));
    let (a, b) = split_at(s, 1);
    assert_eq!((a, b), ("a", "é!"));
}

#[test]
fn split_error_index_through_trait() {
    let e = StrSplitError::InvalidCharBoundary { index: 5 };
    assert_eq!(<str as Slice>::split_error_index(&e), 5);
    assert_eq!(FromSplitErrorFailure::NotOther, FromSplitErrorFailure::NotOther);
}

#[test]
fn oob_index_signs() {
    let p = OobIndex::from_positive(7).unwrap();
    assert!(p.is_positive());
    assert!(!p.is_negative());
    assert_eq!(p.as_positive(), Ok(7));
    assert_eq!(p.as_negative(), Err(7));
    let n = OobIndex::from_negative(-3).unwrap();
    assert!(n.is_negative());
    assert!(!n.is_positive());
    assert_eq!(n.as_negative(), Ok(-3));
    assert_eq!(n.as_positive(), Err(-3));
    assert_eq!(OobIndex::from_positive(0), None);
    assert_eq!(OobIndex::from_negative(0), None);
    assert_eq!(OobIndex::from_negative(5), None);
    assert_eq!(OobIndex::from_positive(usize::MAX).unwrap().as_positive(), Ok(usize::MAX));
    assert_eq!(OobIndex::from_negative(isize::MIN).unwrap().as_negative(), Ok(isize::MIN));
}

#[test]
fn split_error_eq_and_order() {
    let s = "aé";
    let oob_small = validate_split_at(s, 5).err().unwrap();
    let oob_big = validate_split_at(s, 9).err().unwrap();
    let other = validate_split_at(s, 2).err().unwrap();
    assert!(oob_small == validate_split_at(s, 5).err().unwrap());
    assert!(oob_small != oob_big);
    assert!(oob_small != other);
    assert!(oob_small < oob_big);
    assert!(other < oob_small);
    assert_eq!(
        oob_big.partial_cmp(&oob_small),
        Some(core::cmp::Ordering::Greater)
    );
    let copy = other.clone();
    assert!(copy == other);
    assert_eq!(copy.index(), Some(2));
}

#[test]
fn str_error_messages() {
    assert_eq!(
        StrAsElemsError::UnsafeToMutablyBorrow.message(),
        "it is unsafe to mutably borrow the underlying bytes of a string"
    );
    assert_eq!(
        StrSplitError::InvalidCharBoundary { index: 1 }.message(),
        "the byte at `index` is not a valid UTF-8 character boundary"
    );
}

#[test]
fn mutable_conversions_and_splits() {
    let mut bytes = *b"abcd";
    {
        let s: &mut str = from_elems_mut(&mut bytes[..]);
        s.make_ascii_uppercase();
    }
    assert_eq!(&bytes, b"ABCD");
    {
        let s: &mut str = from_elems_mut_unchecked(&mut bytes[..]);
        let (a, b) = split_at_mut(s, 1);
        a.make_ascii_lowercase();
        assert_eq!(b, "BCD");
    }
    assert_eq!(&bytes, b"aBCD");
    let mut bad = [0xffu8, 0x61];
    assert!(try_from_elems_mut::<str>(&mut bad[..]).is_err());
    let mut v = [1, 2, 3, 4];
    {
        let t: &mut [i32] = try_from_elems_mut(&mut v[..]).ok().unwrap();
        let (a, b) = split_at_mut_unchecked(t, 2);
        a[0] = 10;
        b[1] = 40;
    }
    assert_eq!(v, [10, 2, 3, 40]);
    let mut word = String::from("aé");
    assert!(try_split_at_mut(word.as_mut_str(), 2).is_err());
    let (x, y) = try_split_at_mut(word.as_mut_str(), 1).ok().unwrap();
    assert_eq!((&*x, &*y), ("a", "é"));
    let s: &mut [i32] = &mut v[..];
    assert!(try_split_at_mut(s, 5).is_err());
}

#[test]
fn error_text() {
    assert_eq!(
        StrAsElemsError::UnsafeToMutablyBorrow.to_string(),
        "it is unsafe to mutably borrow the underlying bytes of a string"
    );
    assert_eq!(
        StrSplitError::InvalidCharBoundary { index: 105 }.to_string(),
        "the byte at index 105 is not a valid UTF-8 character boundary"
    );
    assert_eq!(
        FromSplitErrorFailure::NotOther.to_string(),
        "split error is not the `Other` variant"
    );
    assert_eq!(OobIndex::from_positive(42).unwrap().to_string(), "42");
    assert_eq!(OobIndex::from_negative(-9).unwrap().to_string(), "-9");
    assert_eq!(
        OobIndex::from_negative(isize::MIN).unwrap().to_string(),
        isize::MIN.to_string()
    );
    let oob: SplitError<[u8]> = SplitError::OutOfBounds {
        index: OobIndex::from_positive(5).unwrap(),
        len: 3,
    };
    assert_eq!(oob.to_string(), "index is out of bounds: `5 >= 3`");
    let oob_str: SplitError<str> = SplitError::OutOfBounds {
        index: OobIndex::from_negative(-1).unwrap(),
        len: 0,
    };
    assert_eq!(oob_str.to_string(), "index is out of bounds: `-1 >= 0`");
    let other: SplitError<str> = SplitError::Other(StrSplitError::InvalidCharBoundary { index: 2 });
    assert_eq!(
        other.to_string(),
        "the byte at index 2 is not a valid UTF-8 character boundary"
    );
    let as_elems = AsElemsError::<str>(StrAsElemsError::UnsafeToMutablyBorrow);
    assert_eq!(
        as_elems.to_string(),
        "it is unsafe to mutably borrow the underlying bytes of a string"
    );
}

#[test]
fn str_split_error_text_from_a_split() {
    let e = try_split_at("a€", 2).unwrap_err();
    assert_eq!(
        e.to_string(),
        "the byte at index 2 is not a valid UTF-8 character boundary"
    );
    let e = try_split_at("ab", 3).unwrap_err();
    assert_eq!(e.to_string(), "index is out of bounds: `3 >= 2`");
}

#[test]
fn element_errors_compare_and_copy() {
    let a = AsElemsError::<str>(StrAsElemsError::UnsafeToMutablyBorrow);
    let b = a.clone();
    let c = a;
    assert!(a == b);
    assert!(b == c);
    assert_eq!(a.partial_cmp(&b), Some(std::cmp::Ordering::Equal));
    let bad: &[u8] = &[0x61, 0xff];
    let e1 = match try_from_elems::<str>(bad) {
        Err(e) => e,
        Ok(_) => panic!("invalid UTF-8 was accepted"),
    };
    let e2 = e1.clone();
    assert!(e1 == e2);
    assert_eq!(e1.0.valid_up_to(), 1);
    let other: &[u8] = &[0xc3];
    let e3 = match try_from_elems::<str>(other) {
        Err(e) => e,
        Ok(_) => panic!("invalid UTF-8 was accepted"),
    };
    assert!(e1 != e3);
}

#[test]
fn mutable_elements_of_a_slice() {
    let mut v = [1, 2, 3];
    {
        let s: &mut [i32] = &mut v[..];
        let e = as_elems_mut(s);
        e[0] = 10;
    }
    as_elems_mut_unchecked::<[i32]>(&mut v[..])[2] = 30;
    assert_eq!(v, [10, 2, 30]);
}

#[test]
fn utf8_conversion_error_message() {
    let bad: &[u8] = &[0xff];
    match try_from_elems::<str>(bad) {
        Err(e) => assert_eq!(e.message(), "provided string contains invalid UTF-8"),
        Ok(_) => panic!("invalid UTF-8 was accepted"),
    }
}

#[test]
fn str_errors_compare_and_hash() {
    let a = StrSplitError::InvalidCharBoundary { index: 2 };
    let b = StrSplitError::InvalidCharBoundary { index: 7 };
    assert!(a == a.clone());
    assert!(a != b);
    assert_eq!(a.partial_cmp(&b), Some(Ordering::Less));
    assert_eq!(b.partial_cmp(&a), Some(Ordering::Greater));
    assert_eq!(a.cmp(&b), Ordering::Less);
    let u = StrAsElemsError::UnsafeToMutablyBorrow;
    assert!(u == StrAsElemsError::UnsafeToMutablyBorrow);
    assert_eq!(u.partial_cmp(&u), Some(Ordering::Equal));
    let three: SplitError<str> = SplitError::OutOfBounds {
        index: OobIndex::from_positive(3).unwrap(),
        len: 1,
    };
    let five: SplitError<str> = SplitError::OutOfBounds {
        index: OobIndex::from_positive(5).unwrap(),
        len: 1,
    };
    assert_eq!(three.partial_cmp(&five), Some(Ordering::Less));
    assert!(three != five);
    let hash = |e: &SplitError<str>| {
        let mut h = std::collections::hash_map::DefaultHasher::new();
        e.hash(&mut h);
        h.finish()
    };
    assert_eq!(hash(&three), hash(&three.clone()));
    let x = AsElemsError::<str>(StrAsElemsError::UnsafeToMutablyBorrow);
    let mut h1 = std::collections::hash_map::DefaultHasher::new();
    x.hash(&mut h1);
    let mut h2 = std::collections::hash_map::DefaultHasher::new();
    StrAsElemsError::UnsafeToMutablyBorrow.hash(&mut h2);
    assert_eq!(h1.finish(), h2.finish());
}
