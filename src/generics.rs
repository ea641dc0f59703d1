//! Generic types and functions, and borrowed data that must outlive its
//! users.
use vstd::prelude::*;
use vstd::string::{StringExecFns, StringSliceAdditionalSpecFns};
use crate::slice::{is_first_byte, up_to_byte};

verus! {

/// The largest number of a non-empty list.
pub fn largest_i32(list: &[i32]) -> (r: i32)
    requires
        list@.len() > 0,
    ensures
        list@.contains(r),
        forall|i: int| 0 <= i < list@.len() ==> list@[i] <= r,
{
    let mut best: usize = 0;
    let mut i: usize = 1;
    while i < list.len()
        invariant
            1 <= i <= list@.len(),
            best < i,
            forall|j: int| 0 <= j < i ==> list@[j] <= list@[best as int],
        decreases list@.len() - i,
    {
        if list[i] > list[best] {
            best = i;
        }
        i = i + 1;
    }
    assert(list@[best as int] == list@[best as int]);
    list[best]
}

/// The largest character of a non-empty list.
pub fn largest_char(list: &[char]) -> (r: char)
    requires
        list@.len() > 0,
    ensures
        list@.contains(r),
        forall|i: int| 0 <= i < list@.len() ==> list@[i] <= r,
{
    let mut best: usize = 0;
    let mut i: usize = 1;
    while i < list.len()
        invariant
            1 <= i <= list@.len(),
            best < i,
            forall|j: int| 0 <= j < i ==> list@[j] <= list@[best as int],
        decreases list@.len() - i,
    {
        if list[i] > list[best] {
            best = i;
        }
        i = i + 1;
    }
    assert(list@[best as int] == list@[best as int]);
    list[best]
}

/// A point whose coordinates share one type.
pub struct Point<T> {
    pub x: T,
    pub y: T,
}

impl<T> Point<T> {
    /// The x coordinate.
    pub fn x(&self) -> (r: &T)
        ensures
            *r == self.x,
    {
        &self.x
    }
}

/// A point whose coordinates may have different types.
pub struct Point2<T, U> {
    pub x: T,
    pub y: U,
}

impl<T, U> Point2<T, U> {
    /// A point with this point's x and `other`'s y.
    pub fn mixup<V, W>(self, other: Point2<V, W>) -> (r: Point2<T, W>)
        ensures
            r.x == self.x,
            r.y == other.y,
    {
        Point2 { x: self.x, y: other.y }
    }
}

/// Two values of one type.
pub struct Pair<T> {
    pub x: T,
    pub y: T,
}

impl<T> Pair<T> {
    /// The pair `(x, y)`.
    pub fn new(x: T, y: T) -> (r: Self)
        ensures
            r.x == x,
            r.y == y,
    {
        Self { x, y }
    }
}

/// The longer of two strings by length in bytes; `y` when they are as long.
pub fn longest<'a>(x: &'a str, y: &'a str) -> (r: &'a str)
    ensures
        r == if x.spec_bytes().len() > y.spec_bytes().len() {
            x
        } else {
            y
        },
{
    if x.as_bytes().len() > y.as_bytes().len() {
        x
    } else {
        y
    }
}

/// The byte of a full stop.
pub const PERIOD: u8 = 46;

/// The first sentence of `novel`: its text up to the first full stop, or
/// all of it when there is none.
pub fn first_sentence(novel: &str) -> (r: &str)
    ensures
        is_first_byte(novel.spec_bytes(), PERIOD, r.spec_bytes().len() as int),
        r.spec_bytes() == novel.spec_bytes().subrange(0, r.spec_bytes().len() as int),
{
    up_to_byte(novel, PERIOD)
}

/// Holds a part of a text that it borrows.
pub struct ImportantExcerpt<'a> {
    pub part: &'a str,
}

impl<'a> ImportantExcerpt<'a> {
    /// Always 3.
    pub fn level(&self) -> (r: i32)
        ensures
            r == 3,
    {
        3
    }
}

/// An excerpt borrowing the first sentence of a novel that outlives it.
pub fn struct_def() {
    let novel = String::from_str("Once upon a time. There was a boy.");
    let first = first_sentence(novel.as_str());
    let i = ImportantExcerpt { part: first };
}

} // verus!
