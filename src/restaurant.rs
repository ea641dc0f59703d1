//! Privacy across modules: a public struct with a private field, and a
//! public enum.
use vstd::prelude::*;
use vstd::string::StringExecFns;

verus! {

fn serve_order() {
}

fn cook_order() {
}

/// The kitchen fixes an order and sends it out again.
fn fix_incorrect_order() {
    cook_order();
    serve_order();
}

/// A breakfast whose toast the customer picks; the seasonal fruit is the
/// kitchen's choice.
pub struct Breakfast {
    pub toast: String,
    seasonal_fruit: String,
}

impl Breakfast {
    /// The toast ordered.
    pub closed spec fn spec_toast(&self) -> Seq<char> {
        self.toast@
    }

    /// The fruit served, which only the kitchen sets.
    pub closed spec fn spec_fruit(&self) -> Seq<char> {
        self.seasonal_fruit@
    }

    /// A summer breakfast with the chosen toast, served with peaches.
    pub fn summer(toast: &str) -> (r: Breakfast)
        ensures
            r.spec_toast() == toast@,
            r.spec_fruit() == "peaches"@,
    {
        Breakfast { toast: toast.to_owned(), seasonal_fruit: String::from_str("peaches") }
    }

    /// The fruit served.
    pub fn seasonal_fruit(&self) -> (r: &str)
        ensures
            r@ == self.spec_fruit(),
    {
        self.seasonal_fruit.as_str()
    }
}

/// A starter; every variant of a public enum is public.
#[derive(Debug, Clone, Copy, PartialEq, Eq, Structural)]
pub enum Appetizer {
    Soup,
    Salad,
}

} // verus!
