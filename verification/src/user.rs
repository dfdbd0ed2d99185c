//! The user aggregate.
//!
//! A `User` is created on signup and never changes: the validated email it
//! is keyed by, the salted password digest, and whether logging in requires
//! the two-factor step-up.

use vstd::prelude::*;

use crate::email::Email;
use crate::password::Password;

verus! {

/// An account record, keyed by its unique email.
#[derive(Debug)]
pub struct User {
    pub email: Email,
    pub password: Password,
    pub requires_2fa: bool,
}

impl User {
    /// Builds the record from its parts.
    pub fn new(email: Email, password: Password, requires_2fa: bool) -> (u: User)
        ensures
            u.email == email,
            u.password == password,
            u.requires_2fa == requires_2fa,
    {
        User { email, password, requires_2fa }
    }
}

impl Clone for User {
    /// The clone carries the same field values: the email byte value, the
    /// password digest, and the two-factor flag.
    fn clone(&self) -> (r: User)
        ensures
            r.email@ == self.email@,
            r.password == self.password,
            r.requires_2fa == self.requires_2fa,
    {
        User {
            email: self.email.clone(),
            password: self.password,
            requires_2fa: self.requires_2fa,
        }
    }
}

impl PartialEq for User {
    /// Equality by value over all three fields.
    fn eq(&self, other: &User) -> (r: bool) {
        self.email == other.email && self.password == other.password
            && self.requires_2fa == other.requires_2fa
    }
}

impl vstd::std_specs::cmp::PartialEqSpecImpl for User {
    open spec fn obeys_eq_spec() -> bool {
        true
    }

    open spec fn eq_spec(&self, other: &User) -> bool {
        self.email@ == other.email@ && self.password == other.password && self.requires_2fa
            == other.requires_2fa
    }
}

} // verus!
