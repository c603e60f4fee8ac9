//! What a principal sends to an identity provider to log in.

use vstd::prelude::*;

verus! {

/// A login by user name and password. The password is the raw one: the form
/// is for the way to the provider and is not to be stored or printed.
#[derive(Clone, Ord, PartialOrd, Eq, PartialEq, Hash)]
pub struct UserPassForm {
    pub username: String,
    pub pwd: String,
}

impl UserPassForm {
    /// The form of the user `username` with the raw password `pwd`.
    pub fn new(username: &str, pwd: &str) -> (r: Self)
        ensures
            r.username@ == username@,
            r.pwd@ == pwd@,
    {
        Self { username: username.to_string(), pwd: pwd.to_string() }
    }
}

/// A login by email address and password. The password is the raw one: the
/// form is for the way to the provider and is not to be stored or printed.
#[derive(Clone, Ord, PartialOrd, Eq, PartialEq, Hash)]
pub struct EmailPassForm {
    pub email: String,
    pub pwd: String,
}

impl EmailPassForm {
    /// The form of the address `email` with the raw password `pwd`.
    pub fn new(email: &str, pwd: &str) -> (r: Self)
        ensures
            r.email@ == email@,
            r.pwd@ == pwd@,
    {
        EmailPassForm { email: email.to_string(), pwd: pwd.to_string() }
    }
}

/// A login by an opaque token, as an outside system for authentication
/// hands it out.
#[derive(Debug, Clone, Ord, PartialOrd, Eq, PartialEq, Hash)]
pub struct TokenForm {
    pub data: String,
}

} // verus!
