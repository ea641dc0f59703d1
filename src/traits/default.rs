//! A trait whose default method is built on a required one.
use vstd::prelude::*;
use vstd::string::StringExecFns;

verus! {

/// Something with an author, summarized by naming that author.
pub trait Summary {
    /// The author's name as text.
    spec fn spec_author(&self) -> Seq<char>;

    /// The author's name.
    fn summarize_author(&self) -> (r: String)
        ensures
            r@ == self.spec_author();

    /// An invitation to read more from the author.
    fn summarize(&self) -> (r: String)
        ensures
            r@ == "(Read more from "@ + self.spec_author() + "...)"@,
    {
        let author = self.summarize_author();
        String::from_str("(Read more from ").concat(author.as_str()).concat("...)")
    }
}

/// A short post, whose author is its username.
pub struct Tweet {
    pub username: String,
    pub content: String,
    pub reply: bool,
    pub retweet: bool,
}

impl Summary for Tweet {
    open spec fn spec_author(&self) -> Seq<char> {
        "@"@ + self.username@
    }

    /// The username after an at sign.
    fn summarize_author(&self) -> (r: String) {
        String::from_str("@").concat(self.username.as_str())
    }
}

} // verus!
