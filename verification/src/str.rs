use vstd::prelude::*;
use vstd::string::StringSliceAdditionalSpecFns;
use vstd::utf8::{
    is_char_boundary, is_continuation_byte, length_of_first_scalar, pop_first_scalar, valid_utf8,
};

verus! {

broadcast use {
    vstd::utf8::encode_utf8_valid_utf8,
    vstd::utf8::is_char_boundary_iff_not_is_continuation_byte,
    vstd::utf8::is_char_boundary_start_end_of_seq,
};

/// Returns whether a given byte begins a UTF-8 character: it is ASCII
/// (`0x00..=0x7F`) or has its two leading bits set (`0xC0..=0xFF`).
///
/// Exactly the bytes that are not UTF-8 continuation bytes qualify; for
/// input that is not UTF-8 this may report false positives but never false
/// negatives.
pub fn is_utf8_char_boundary(byte: u8) -> (r: bool)
    ensures
        r == !is_continuation_byte(byte),
{
    byte <= 0x7F || byte >= 0xC0
}

/// In well-formed UTF-8, every position up to the length has a character
/// boundary at most three bytes before it.
pub proof fn lemma_boundary_within_four(bytes: Seq<u8>, i: int)
    requires
        valid_utf8(bytes),
        0 <= i <= bytes.len(),
    ensures
        exists|j: int| i - 3 <= j <= i && 0 <= j && #[trigger] is_char_boundary(bytes, j),
    decreases bytes.len(),
{
    if i == 0 || i < length_of_first_scalar(bytes) {
        assert(is_char_boundary(bytes, 0));
    } else {
        let l = length_of_first_scalar(bytes);
        let rest = pop_first_scalar(bytes);
        assert(rest.len() == bytes.len() - l);
        lemma_boundary_within_four(rest, i - l);
        let j = choose|j: int| i - l - 3 <= j <= i - l && 0 <= j && #[trigger] is_char_boundary(
            rest,
            j,
        );
        assert(is_char_boundary(bytes, j + l));
    }
}

/// Returns the greatest character boundary of `s` that is at most `index`;
/// an index past the end of `s` gives the length of `s`.
pub fn floor_char_boundary(s: &str, index: usize) -> (r: usize)
    ensures
        r <= s.spec_bytes().len(),
        r <= index,
        index >= s.spec_bytes().len() ==> r == s.spec_bytes().len(),
        is_char_boundary(s.spec_bytes(), r as int),
        forall|j: int| r < j <= index && j <= s.spec_bytes().len() ==> !#[trigger] is_char_boundary(
            s.spec_bytes(),
            j,
        ),
{
    let bytes = s.as_bytes();
    let len = bytes.len();
    if index >= len {
        return len;
    }
    let start = if index >= 3 {
        index - 3
    } else {
        0
    };
    let mut k = index;
    loop
        invariant
            start <= k <= index < len,
            len == bytes@.len(),
            bytes@ == s.spec_bytes(),
            start == if index >= 3 {
                index - 3
            } else {
                0
            },
            forall|j: int| k < j <= index ==> !#[trigger] is_char_boundary(s.spec_bytes(), j),
        decreases k,
    {
        if is_utf8_char_boundary(bytes[k]) {
            return k;
        }
        if k == start {
            proof {
                lemma_boundary_within_four(s.spec_bytes(), index as int);
                let j = choose|j: int|
                    index - 3 <= j <= index && 0 <= j && #[trigger] is_char_boundary(
                        s.spec_bytes(),
                        j,
                    );
                assert(is_char_boundary(s.spec_bytes(), j));
            }
            return start;
        }
        k = k - 1;
    }
}

} // verus!
