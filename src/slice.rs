//! Slices: words of a string and parts of an array.
use vstd::prelude::*;
use vstd::slice::slice_subrange;
use vstd::string::{StringExecFns, StringSliceAdditionalSpecFns};
use vstd::utf8::{
    encode_utf8, encode_utf8_valid_utf8, is_char_boundary_iff_not_is_continuation_byte,
    is_char_boundary_start_end_of_seq,
};

verus! {

/// The byte of an ASCII space.
pub const SPACE: u8 = 32;

/// `i` is the byte index of the first `c` in `bytes`, or `bytes.len()`
/// when there is none.
pub open spec fn is_first_byte(bytes: Seq<u8>, c: u8, i: int) -> bool {
    &&& 0 <= i <= bytes.len()
    &&& forall|j: int| 0 <= j < i ==> bytes[j] != c
    &&& i < bytes.len() ==> bytes[i] == c
}

/// The index of the first `c` in `bytes`, or its length when there is none.
pub fn find_byte(bytes: &[u8], c: u8) -> (r: usize)
    ensures
        is_first_byte(bytes@, c, r as int),
{
    let mut i: usize = 0;
    while i < bytes.len()
        invariant
            i <= bytes@.len(),
            forall|j: int| 0 <= j < i ==> bytes@[j] != c,
        decreases bytes@.len() - i,
    {
        if bytes[i] == c {
            return i;
        }
        i = i + 1;
    }
    i
}

/// The text of `s` before the first ASCII byte `c`, or all of `s` when it
/// holds none.
pub fn up_to_byte(s: &str, c: u8) -> (r: &str)
    requires
        c < 128,
    ensures
        is_first_byte(s.spec_bytes(), c, r.spec_bytes().len() as int),
        r.spec_bytes() == s.spec_bytes().subrange(0, r.spec_bytes().len() as int),
{
    let i = find_byte(s.as_bytes(), c);
    proof {
        let b = encode_utf8(s@);
        encode_utf8_valid_utf8(s@);
        is_char_boundary_start_end_of_seq(b);
        if i < b.len() {
            is_char_boundary_iff_not_is_continuation_byte(b, i as int);
        }
    }
    let (head, tail) = s.split_at(i);
    head
}

/// The byte index at which the first word of `s` ends: the index of the
/// first space, or the length of `s` when it holds none.
pub fn first_word_independent(s: &String) -> (r: usize)
    ensures
        is_first_byte(encode_utf8(s@), SPACE, r as int),
{
    find_byte(s.as_str().as_bytes(), SPACE)
}

/// The first word of `s`: its text up to the first space, or all of it.
pub fn first_word(s: &String) -> (r: &str)
    ensures
        is_first_byte(encode_utf8(s@), SPACE, r.spec_bytes().len() as int),
        r.spec_bytes() == encode_utf8(s@).subrange(0, r.spec_bytes().len() as int),
{
    up_to_byte(s.as_str(), SPACE)
}

/// The first word of a string slice, which may borrow a `String` or be a
/// literal.
pub fn first_word_str(s: &str) -> (r: &str)
    ensures
        is_first_byte(s.spec_bytes(), SPACE, r.spec_bytes().len() as int),
        r.spec_bytes() == s.spec_bytes().subrange(0, r.spec_bytes().len() as int),
{
    up_to_byte(s, SPACE)
}

/// The index that `first_word_independent` returns is not tied to the
/// string: it stays the same after the string is emptied.
pub fn clear_example() {
    let mut s = String::from_str("hello world");
    let word = first_word_independent(&s);
    s = String::new();
    let word = first_word_independent(&s);
    assert(word == 0) by {
        assert(s@.len() == 0);
        assert(encode_utf8(s@).len() == 0);
    }
}

/// A slice of an array: its elements at indices 1 and 2.
pub fn other_slices() {
    let a: [i32; 5] = [1, 2, 3, 4, 5];
    let slice = slice_subrange(a.as_slice(), 1, 3);
    assert(slice@ == seq![2i32, 3]);
}

} // verus!
