//! Validating a value once, in a type, instead of at every use.
use vstd::prelude::*;

verus! {

/// A guess known to lie between 1 and 100.
pub struct Guess {
    value: i32,
}

impl Guess {
    #[verifier::type_invariant]
    spec fn in_range(&self) -> bool {
        1 <= self.value <= 100
    }

    /// The number guessed.
    pub closed spec fn spec_value(&self) -> i32 {
        self.value
    }

    /// A guess of `value`, which must lie between 1 and 100.
    pub fn new(value: i32) -> (r: Guess)
        requires
            1 <= value <= 100,
        ensures
            r.spec_value() == value,
    {
        Guess { value }
    }

    /// The number guessed, always between 1 and 100.
    pub fn value(&self) -> (r: i32)
        ensures
            r == self.spec_value(),
            1 <= r <= 100,
    {
        proof {
            use_type_invariant(self);
        }
        self.value
    }
}

/// A guess made once through `Guess::new` needs no range check when read.
pub fn guess_number_new() {
    let guess = Guess::new(42);
    let v = guess.value();
    assert(v == 42);
}

} // verus!
