//! What can go wrong, while hashing or checking a password and while looking
//! an identity up. No error holds a raw password or the bytes of a digest, so
//! each of them can be printed as it is.

use vstd::prelude::*;
use vstd::std_specs::convert::FromSpecImpl;

verus! {

/// The error type of the hashing crates, `password_hash::Error`. Nothing is
/// known of a value but which value it is: it is kept as the cause of a
/// failure and handed on.
#[verifier::external_type_specification]
#[verifier::external_body]
pub struct ExHashError(password_hash::Error);

pub type ResultAuth<T> = Result<T, AuthError>;

pub type ResultPwd<T> = Result<T, PasswordError>;

/// Why a password was not hashed, not loaded or not accepted.
#[derive(Debug)]
#[allow(inconsistent_fields)]
pub enum PasswordError {
    /// The candidate is not the password that the stored hash was made from.
    InvalidPassword,
    /// The policy wants more characters than the `provided` ones.
    MinimumPasswordLength { provided: usize },
    /// The algorithm takes fewer characters than the `provided` ones.
    MaximumPasswordLength { provided: usize },
    /// The stored string names an algorithm, `provided`, that is not supported.
    InvalidPasswordAlgo { provided: String },
    /// The stored string is no well-formed encoded hash.
    MalformedHash(password_hash::Error),
    /// The hashing function itself failed.
    HashError(password_hash::Error),
}

/// A [`PasswordError`] with its text as a sequence of characters.
#[allow(inconsistent_fields)]
pub enum PasswordErrorView {
    InvalidPassword,
    MinimumPasswordLength { provided: nat },
    MaximumPasswordLength { provided: nat },
    InvalidPasswordAlgo { provided: Seq<char> },
    MalformedHash(password_hash::Error),
    HashError(password_hash::Error),
}

impl View for PasswordError {
    type V = PasswordErrorView;

    open spec fn view(&self) -> PasswordErrorView {
        match *self {
            PasswordError::InvalidPassword => PasswordErrorView::InvalidPassword,
            PasswordError::MinimumPasswordLength { provided } => {
                PasswordErrorView::MinimumPasswordLength { provided: provided as nat }
            },
            PasswordError::MaximumPasswordLength { provided } => {
                PasswordErrorView::MaximumPasswordLength { provided: provided as nat }
            },
            PasswordError::InvalidPasswordAlgo { provided } => {
                PasswordErrorView::InvalidPasswordAlgo { provided: provided@ }
            },
            PasswordError::MalformedHash(cause) => PasswordErrorView::MalformedHash(cause),
            PasswordError::HashError(cause) => PasswordErrorView::HashError(cause),
        }
    }
}

/// Why a request to an identity provider failed.
#[derive(Debug)]
pub enum AuthError {
    /// The provider's storage failed; the text says how.
    Other(String),
    /// The password was not accepted.
    Password(PasswordError),
    IdentityNotFound { named: String },
    EmailNotFound { email: String },
    UserNotFound { named: String },
    TokenNotFound { token: String },
}

/// An [`AuthError`] with its texts as sequences of characters.
pub enum AuthErrorView {
    Other(Seq<char>),
    Password(PasswordErrorView),
    IdentityNotFound { named: Seq<char> },
    EmailNotFound { email: Seq<char> },
    UserNotFound { named: Seq<char> },
    TokenNotFound { token: Seq<char> },
}

impl View for AuthError {
    type V = AuthErrorView;

    open spec fn view(&self) -> AuthErrorView {
        match *self {
            AuthError::Other(text) => AuthErrorView::Other(text@),
            AuthError::Password(err) => AuthErrorView::Password(err@),
            AuthError::IdentityNotFound { named } => AuthErrorView::IdentityNotFound {
                named: named@,
            },
            AuthError::EmailNotFound { email } => AuthErrorView::EmailNotFound { email: email@ },
            AuthError::UserNotFound { named } => AuthErrorView::UserNotFound { named: named@ },
            AuthError::TokenNotFound { token } => AuthErrorView::TokenNotFound { token: token@ },
        }
    }
}

impl From<PasswordError> for AuthError {
    fn from(err: PasswordError) -> (r: Self) {
        AuthError::Password(err)
    }
}

impl FromSpecImpl<PasswordError> for AuthError {
    open spec fn obeys_from_spec() -> bool {
        true
    }

    open spec fn from_spec(err: PasswordError) -> Self {
        AuthError::Password(err)
    }
}

} // verus!
