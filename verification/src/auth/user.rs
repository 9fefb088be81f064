//! Authenticated user identifier.

use vstd::prelude::*;

verus! {

/// User ID, as extracted from a request and checked by a provider.
#[derive(Clone, Debug)]
pub struct UserId(pub String);

impl View for UserId {
    type V = Seq<char>;

    open spec fn view(&self) -> Seq<char> {
        self.0@
    }
}

impl UserId {
    /// Wraps an owned string.
    pub fn from_string(value: String) -> (r: UserId)
        ensures
            r@ == value@,
    {
        UserId(value)
    }

    /// Copies a string slice into a user ID.
    pub fn from_str(value: &str) -> (r: UserId)
        ensures
            r@ == value@,
    {
        UserId(crate::text::owned(value))
    }

    /// A copy of this user ID.
    pub fn duplicate(&self) -> (r: UserId)
        ensures
            r@ == self@,
    {
        UserId(self.0.clone())
    }

    /// The user name.
    pub fn as_str(&self) -> (r: &str)
        ensures
            r@ == self@,
    {
        self.0.as_str()
    }
}

} // verus!
