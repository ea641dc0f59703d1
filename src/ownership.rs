//! Ownership: moves, copies, and handing values in and out of functions.
use vstd::prelude::*;
use vstd::string::StringExecFns;

verus! {

/// A string literal lives as long as its scope.
pub fn variable_scope() {
    let s = "hello";
}

/// Integers are copied: both bindings hold the value.
pub fn move_int() {
    let x: i32 = 5;
    let y: i32 = x;
    assert(x == 5 && y == 5);
}

/// A `String` is moved, not copied: the new binding holds the same text.
pub fn move_string() {
    let s1 = String::from_str("hello");
    let ghost text = s1@;
    let s2 = s1;
    assert(s2@ == text);
}

/// Returns a new string holding "hello".
fn gives_ownership() -> (r: String)
    ensures
        r@ == "hello"@,
{
    let some_string = String::from_str("hello");
    some_string
}

/// Takes ownership of a string and hands it back unchanged.
fn takes_and_gives_back(a_string: String) -> (r: String)
    ensures
        r@ == a_string@,
{
    a_string
}

/// Ownership moving into and out of functions.
pub fn function_example() {
    let s1 = gives_ownership();
    let s2 = String::from_str("hello");
    let s3 = takes_and_gives_back(s2);
    assert(s3@ == s1@);
}

} // verus!
