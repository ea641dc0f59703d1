//! References and borrowing.
use vstd::prelude::*;
use vstd::string::StringExecFns;
use vstd::utf8::encode_utf8;

verus! {

/// The length in bytes of `s`, read through a shared borrow.
pub fn calculate_length(s: &String) -> (r: usize)
    ensures
        r == encode_utf8(s@).len(),
{
    s.as_str().as_bytes().len()
}

/// Appends ", fn" to `some_string` through a mutable borrow.
pub fn change(some_string: &mut String)
    ensures
        final(some_string)@ == old(some_string)@ + ", fn"@,
{
    some_string.append(", fn");
}

/// Two mutable borrows one after the other: the first ends before the
/// second begins.
pub fn mutable_wrong() {
    let mut s = String::from_str("hello");
    let r1 = &mut s;
    let r2 = &mut s;
}

/// Shared borrows end before the mutable one begins.
pub fn mutable_immutable_wrong() {
    let mut s = String::from_str("hello");
    let r1 = &s;
    let r2 = &s;
    let r3 = &mut s;
}

/// Returns an owned string rather than a reference to a local.
fn dangle() -> (r: String)
    ensures
        r@ == "hello"@,
{
    let s = String::from_str("hello");
    s
}

/// Moving ownership out of a function leaves nothing dangling.
pub fn dangling_ptr() {
    let reference_to_nothing = dangle();
    assert(reference_to_nothing@ == "hello"@);
}

} // verus!
