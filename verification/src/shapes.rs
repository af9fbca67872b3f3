//! Rectangles and users: plain records with a couple of derived facts.

use vstd::prelude::*;

verus! {

/// An axis-aligned rectangle, measured in pixels.
#[derive(Debug, Clone, Copy, PartialEq, Eq, Structural)]
pub struct Rectangle {
    pub width: u32,
    pub height: u32,
}

impl Rectangle {
    /// The square with the given side length.
    pub fn square(size: u32) -> (r: Rectangle)
        ensures
            r.width == size,
            r.height == size,
    {
        Rectangle { width: size, height: size }
    }

    /// The rectangle's area.
    pub fn area(&self) -> (a: u32)
        requires
            self.width * self.height <= u32::MAX,
        ensures
            a == self.width * self.height,
    {
        self.width * self.height
    }

    /// Whether `other` fits strictly inside this rectangle.
    pub fn can_hold(&self, other: &Rectangle) -> (b: bool)
        ensures
            b == (self.width > other.width && self.height > other.height),
    {
        self.width > other.width && self.height > other.height
    }
}

/// An account record.
pub struct User {
    pub active: bool,
    pub username: String,
    pub email: String,
    pub sign_in_count: u64,
}

/// Builds a fresh, active account with a single sign-in.
pub fn build_user(email: String, username: String) -> (u: User)
    ensures
        u.active,
        u.username@ == username@,
        u.email@ == email@,
        u.sign_in_count == 1,
{
    User { active: true, username, email, sign_in_count: 1 }
}

} // verus!
