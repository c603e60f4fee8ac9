//! The ways in which a principal proves who it is.
//!
//! One identity may have several credentials: a user name, an email
//! address, a token of an outside system. A credential holds what
//! identifies the principal and never a password, so it may be written to a
//! log as it is.

use vstd::prelude::*;
use vstd::std_specs::cmp::PartialEqSpecImpl;
use vstd::std_specs::convert::FromSpecImpl;

verus! {

/// A credential by user name and password.
#[derive(Debug, Clone, Ord, PartialOrd, Eq, Hash)]
pub struct CredentialUser {
    pub username: String,
}

/// Two of them are equal when they name the same user.
impl PartialEq for CredentialUser {
    fn eq(&self, other: &Self) -> (r: bool) {
        self.username == other.username
    }
}

impl PartialEqSpecImpl for CredentialUser {
    open spec fn obeys_eq_spec() -> bool {
        true
    }

    open spec fn eq_spec(&self, other: &Self) -> bool {
        self.username@ == other.username@
    }
}

impl CredentialUser {
    /// The credential of the user named `username`.
    pub fn new(username: &str) -> (r: Self)
        ensures
            r.username@ == username@,
    {
        Self { username: username.to_string() }
    }
}

/// A credential by email address and password.
#[derive(Debug, Clone, Ord, PartialOrd, Eq, Hash)]
pub struct CredentialEmail {
    pub email: String,
}

/// Two of them are equal when they name the same address.
impl PartialEq for CredentialEmail {
    fn eq(&self, other: &Self) -> (r: bool) {
        self.email == other.email
    }
}

impl PartialEqSpecImpl for CredentialEmail {
    open spec fn obeys_eq_spec() -> bool {
        true
    }

    open spec fn eq_spec(&self, other: &Self) -> bool {
        self.email@ == other.email@
    }
}

/// An opaque token, as an outside system for authentication hands it out.
#[derive(Debug, Clone, Ord, PartialOrd, Eq, Hash)]
pub struct CredentialToken {
    pub data: String,
}

/// Two of them are equal when they hold the same data.
impl PartialEq for CredentialToken {
    fn eq(&self, other: &Self) -> (r: bool) {
        self.data == other.data
    }
}

impl PartialEqSpecImpl for CredentialToken {
    open spec fn obeys_eq_spec() -> bool {
        true
    }

    open spec fn eq_spec(&self, other: &Self) -> bool {
        self.data@ == other.data@
    }
}

/// How a principal proved who it is.
#[derive(Debug, Clone, Ord, PartialOrd, Eq, Hash)]
pub enum Credential {
    /// An anonymous principal, known by an identifier only.
    Anon(String),
    User(CredentialUser),
    UserEmail(CredentialEmail),
    Token(CredentialToken),
}

impl Credential {
    /// Whether `other` is a credential of the same kind.
    pub open spec fn same_kind(self, other: Credential) -> bool {
        match (self, other) {
            (Credential::Anon(_), Credential::Anon(_)) => true,
            (Credential::User(_), Credential::User(_)) => true,
            (Credential::UserEmail(_), Credential::UserEmail(_)) => true,
            (Credential::Token(_), Credential::Token(_)) => true,
            _ => false,
        }
    }

    /// The field that identifies the principal: the identifier of an
    /// anonymous one, the user name, the email address, or the token's data.
    pub open spec fn identifier(self) -> Seq<char> {
        match self {
            Credential::Anon(id) => id@,
            Credential::User(user) => user.username@,
            Credential::UserEmail(email) => email.email@,
            Credential::Token(token) => token.data@,
        }
    }
}

/// Two credentials are equal when they are of the same kind and identify
/// the same principal.
impl PartialEq for Credential {
    fn eq(&self, other: &Self) -> (r: bool) {
        match (self, other) {
            (Credential::Anon(a), Credential::Anon(b)) => *a == *b,
            (Credential::User(a), Credential::User(b)) => a.username == b.username,
            (Credential::UserEmail(a), Credential::UserEmail(b)) => a.email == b.email,
            (Credential::Token(a), Credential::Token(b)) => a.data == b.data,
            _ => false,
        }
    }
}

impl PartialEqSpecImpl for Credential {
    open spec fn obeys_eq_spec() -> bool {
        true
    }

    open spec fn eq_spec(&self, other: &Self) -> bool {
        self.same_kind(*other) && self.identifier() == other.identifier()
    }
}

impl From<CredentialUser> for Credential {
    fn from(x: CredentialUser) -> (r: Self) {
        Credential::User(x)
    }
}

impl FromSpecImpl<CredentialUser> for Credential {
    open spec fn obeys_from_spec() -> bool {
        true
    }

    open spec fn from_spec(x: CredentialUser) -> Self {
        Credential::User(x)
    }
}

impl From<CredentialEmail> for Credential {
    fn from(x: CredentialEmail) -> (r: Self) {
        Credential::UserEmail(x)
    }
}

impl FromSpecImpl<CredentialEmail> for Credential {
    open spec fn obeys_from_spec() -> bool {
        true
    }

    open spec fn from_spec(x: CredentialEmail) -> Self {
        Credential::UserEmail(x)
    }
}

} // verus!
