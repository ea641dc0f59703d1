//! Structs: named fields, tuple structs, methods and associated functions.
use vstd::prelude::*;
use vstd::string::StringExecFns;

verus! {

/// An account with owned text fields.
pub struct User {
    pub username: String,
    pub email: String,
    pub sign_in_count: u64,
    pub active: bool,
}

/// A new active user who has signed in once.
pub fn build_user(email: String, username: String) -> (r: User)
    ensures
        r.email@ == email@,
        r.username@ == username@,
        r.active,
        r.sign_in_count == 1,
{
    User { email, username, active: true, sign_in_count: 1 }
}

/// Building, changing and copying the fields of a struct.
pub fn basic_struct() {
    let mut user1 = User {
        email: String::from_str("someone@example.com"),
        username: String::from_str("username123"),
        active: true,
        sign_in_count: 1,
    };
    user1.email = String::from_str("anotheremail@example.com");
    let user2 = User {
        email: String::from_str("another@example.com"),
        username: String::from_str("anotherusername567"),
        ..user1
    };
    assert(user2.active && user2.sign_in_count == 1);
}

struct Color(i32, i32, i32);

struct Point3(i32, i32, i32);

/// Tuple structs with equal fields are still distinct types.
pub fn tuple_struct_simple() {
    let black = Color(0, 0, 0);
    let origin = Point3(0, 0, 0);
    let black_part = black.0;
    assert(black_part == 0);
}

struct Account {
    sign_in_count: u64,
    active: bool,
}

/// A struct whose fields are all owned values.
pub fn ownership_struct() {
    let account = Account { sign_in_count: 1, active: true };
    assert(account.active);
}

/// The area of a `width` by `height` rectangle.
pub fn area1(width: u32, height: u32) -> (r: u32)
    requires
        width * height <= u32::MAX,
    ensures
        r == width * height,
{
    width * height
}

/// The area of a rectangle given as a `(width, height)` pair.
pub fn area2(dimensions: (u32, u32)) -> (r: u32)
    requires
        dimensions.0 * dimensions.1 <= u32::MAX,
    ensures
        r == dimensions.0 * dimensions.1,
{
    dimensions.0 * dimensions.1
}

/// An axis-aligned rectangle.
#[derive(Debug, Clone, Copy, PartialEq, Eq, Structural)]
pub struct Rectangle {
    pub width: u32,
    pub height: u32,
}

impl Rectangle {
    pub open spec fn spec_area(&self) -> int {
        self.width * self.height
    }

    /// The area of the rectangle.
    pub fn area(&self) -> (r: u32)
        requires
            self.spec_area() <= u32::MAX,
        ensures
            r == self.spec_area(),
    {
        self.width * self.height
    }

    /// Whether `other` fits strictly inside this rectangle.
    pub fn can_hold(&self, other: &Rectangle) -> (r: bool)
        ensures
            r == (self.width > other.width && self.height > other.height),
    {
        self.width > other.width && self.height > other.height
    }

    /// A square with sides of `size`.
    pub fn square(size: u32) -> (r: Rectangle)
        ensures
            r.width == size && r.height == size,
    {
        Rectangle { width: size, height: size }
    }
}

/// The area of `rectangle`, through a shared borrow.
pub fn area3(rectangle: &Rectangle) -> (r: u32)
    requires
        rectangle.spec_area() <= u32::MAX,
    ensures
        r == rectangle.spec_area(),
{
    rectangle.width * rectangle.height
}

} // verus!
