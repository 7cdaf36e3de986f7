use lib::str::{floor_char_boundary, is_utf8_char_boundary};

#[test]
fn char_boundary_bytes() {
    assert!(is_utf8_char_boundary(b'a'));
    assert!(is_utf8_char_boundary(0x7f));
    assert!(!is_utf8_char_boundary(0x80));
    assert!(!is_utf8_char_boundary(0xbf));
    assert!(is_utf8_char_boundary(0xc0));
    assert!(is_utf8_char_boundary(0xff));
}

#[test]
fn floor_char_boundary_values() {
    let s = "a€b"; // 61 e2 82 ac 62
    assert_eq!(floor_char_boundary(s, 0), 0);
    assert_eq!(floor_char_boundary(s, 1), 1);
    assert_eq!(floor_char_boundary(s, 2), 1);
    assert_eq!(floor_char_boundary(s, 3), 1);
    assert_eq!(floor_char_boundary(s, 4), 4);
    assert_eq!(floor_char_boundary(s, 5), 5);
    assert_eq!(floor_char_boundary(s, 100), 5);
    let four = "𝄞x"; // f0 9d 84 9e 78
    assert_eq!(floor_char_boundary(four, 3), 0);
    assert_eq!(floor_char_boundary(four, 4), 4);
    assert_eq!(floor_char_boundary("", 3), 0);
}

#[test]
fn floor_char_boundary_agrees_with_std() {
    let s = "añ€𝄞z";
    for i in 0..=s.len() + 2 {
        let r = floor_char_boundary(s, i);
        assert!(s.is_char_boundary(r));
        assert!(r <= i);
        let mut expected = i.min(s.len());
        while !s.is_char_boundary(expected) {
            expected -= 1;
        }
        assert_eq!(r, expected);
    }
}
