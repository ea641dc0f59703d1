//! Small functions with tests of their own.
use vstd::prelude::*;
use vstd::string::StringExecFns;

verus! {

/// Adds two to `a`.
pub fn add_two(a: i32) -> (r: i32)
    requires
        a <= i32::MAX - 2,
    ensures
        r == a + 2,
{
    a + 2
}

/// A greeting for `name`: "Hello " followed by the name.
pub fn greeting(name: &str) -> (r: String)
    ensures
        r@ == "Hello "@ + name@,
{
    String::from_str("Hello ").concat(name)
}

/// A guess between 1 and 100.
pub struct Guess {
    value: i32,
}

impl Guess {
    #[verifier::type_invariant]
    spec fn in_range(&self) -> bool {
        1 <= self.value <= 100
    }

    /// The number guessed.
    pub closed spec fn spec_value(&self) -> i32 {
        self.value
    }

    /// A guess of `value`, which must lie between 1 and 100.
    pub fn new(value: i32) -> (r: Guess)
        requires
            1 <= value <= 100,
        ensures
            r.spec_value() == value,
    {
        Guess { value }
    }
}

} // verus!
