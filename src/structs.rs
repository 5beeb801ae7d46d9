//! Structs: a user record, a rectangle with methods, tuple structs and a
//! unit-like struct.
use vstd::prelude::*;

verus! {

/// An account record.
#[derive(Debug)]
pub struct User {
    pub active: bool,
    pub username: String,
    pub email: String,
    pub sign_in_count: u64,
}

/// An axis-aligned rectangle.
#[derive(Clone, Copy, Debug, PartialEq, Eq, Structural)]
pub struct Rectangle {
    pub width: u32,
    pub height: u32,
}

/// A colour as red, green and blue components.
#[derive(Clone, Copy, Debug, PartialEq, Eq, Structural)]
pub struct Color(pub i32, pub i32, pub i32);

/// A point in three dimensions; the same fields as `Color`, a different type.
#[derive(Clone, Copy, Debug, PartialEq, Eq, Structural)]
pub struct Point(pub i32, pub i32, pub i32);

/// A struct with no fields.
#[derive(Clone, Copy, Debug, PartialEq, Eq, Structural)]
pub struct AlwaysEqual;

/// The area of `rect`, as a free function.
pub fn area(rect: &Rectangle) -> (r: u32)
    requires
        rect.width * rect.height <= u32::MAX,
    ensures
        r == rect.width * rect.height,
{
    rect.width * rect.height
}

impl Rectangle {
    /// The area of the rectangle.
    pub fn area(&self) -> (r: u32)
        requires
            self.width * self.height <= u32::MAX,
        ensures
            r == self.width * self.height,
    {
        self.width * self.height
    }

    /// Whether `another` fits strictly inside this rectangle, in both width
    /// and height.
    pub fn can_hold(&self, another: &Rectangle) -> (r: bool)
        ensures
            r == (self.width > another.width && self.height > another.height),
    {
        self.width > another.width && self.height > another.height
    }
}

/// A new active user with the given name and email, signed in once.
pub fn build_user(username: String, email: String) -> (r: User)
    ensures
        r.active,
        r.username == username,
        r.email == email,
        r.sign_in_count == 1,
{
    User { active: true, username, email, sign_in_count: 1 }
}

} // verus!
