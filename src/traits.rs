//! Traits: shared behaviour with default methods.
use vstd::prelude::*;
use vstd::string::StringExecFns;

pub mod default;

verus! {

/// Something that can be summarized in a line of text.
pub trait Summary {
    /// A one-line summary; by default, an invitation to read more.
    fn summarize(&self) -> (r: String) {
        String::from_str("(Read more...)")
    }
}

/// A news article.
pub struct NewsArticle {
    pub headline: String,
    pub location: String,
    pub author: String,
    pub content: String,
}

impl Summary for NewsArticle {

}

/// A short post.
pub struct Tweet {
    pub username: String,
    pub content: String,
    pub reply: bool,
    pub retweet: bool,
}

impl Summary for Tweet {
    /// The username, a colon and a space, then the content.
    fn summarize(&self) -> (r: String)
        ensures
            r@ == self.username@ + ": "@ + self.content@,
    {
        self.username.as_str().to_owned().concat(": ").concat(self.content.as_str())
    }
}

/// Several trait bounds on one parameter, as `T: Summary + Display`.
pub fn multiple_trait_bounds() {
}

/// Trait bounds written in a `where` clause after the signature.
pub fn where_clause() {
}

/// Some value that implements `Summary`, without naming its type.
pub fn return_trait() -> impl Summary {
    Tweet {
        username: String::from_str("horse_ebooks"),
        content: String::from_str("of course, as you probably already know, people"),
        reply: false,
        retweet: false,
    }
}

} // verus!
