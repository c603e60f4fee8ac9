//! The kinds of user that most applications start from. Each of them is an
//! [`Identity`].

use crate::credentials::Credential;
use crate::credentials::CredentialEmail;
use crate::credentials::CredentialUser;
use crate::errors::PasswordError;
use crate::errors::PasswordErrorView;
use crate::errors::ResultPwd;
use crate::identity::Identity;
use crate::identity::REALM_DEFAULT;
use crate::password::error_of;
use crate::password::Password;
use crate::password::PasswordView;
use crate::properties::Properties;
use std::collections::HashMap;
use vstd::prelude::*;

verus! {

/// The user name of an administrator.
pub const USERNAME_ADMIN: &'static str = "admin";

/// A user with the fields that most applications keep.
#[derive(Clone, Eq, PartialEq)]
pub struct User {
    user_id: String,
    user_name: String,
    email: String,
    password: Password,
    realm: Option<String>,
    properties: Option<HashMap<String, Properties>>,
}

/// What a [`User`] holds, with the texts as sequences of characters.
pub struct UserView {
    pub user_id: Seq<char>,
    pub user_name: Seq<char>,
    pub email: Seq<char>,
    pub password: PasswordView,
    pub realm: Option<Seq<char>>,
    pub properties: Option<HashMap<String, Properties>>,
}

/// The text that `realm` holds, if it holds one.
pub open spec fn realm_view(realm: Option<&str>) -> Option<Seq<char>> {
    match realm {
        Some(name) => Some(name@),
        None => None,
    }
}

impl View for User {
    type V = UserView;

    closed spec fn view(&self) -> UserView {
        UserView {
            user_id: self.user_id@,
            user_name: self.user_name@,
            email: self.email@,
            password: self.password@,
            realm: match self.realm {
                Some(name) => Some(name@),
                None => None,
            },
            properties: self.properties,
        }
    }
}

impl User {
    /// The user with the identifier `user_id`, who logs in as `user_name`
    /// with `password`. Without a `realm` the user belongs to
    /// [`REALM_DEFAULT`].
    pub fn new(
        user_id: &str,
        user_name: &str,
        email: &str,
        password: Password,
        realm: Option<&str>,
        properties: Option<HashMap<String, Properties>>,
    ) -> (r: Self)
        ensures
            r@.user_id == user_id@,
            r@.user_name == user_name@,
            r@.email == email@,
            r@.password == password@,
            r@.realm == realm_view(realm),
            r@.properties == properties,
    {
        User {
            user_id: user_id.to_string(),
            user_name: user_name.to_string(),
            email: email.to_string(),
            password,
            realm: match realm {
                Some(name) => Some(name.to_string()),
                None => None,
            },
            properties,
        }
    }

    /// The administrator with the identifier `user_id`: a user who logs in
    /// as [`USERNAME_ADMIN`].
    pub fn new_admin(
        user_id: &str,
        email: &str,
        password: Password,
        realm: Option<&str>,
        properties: Option<HashMap<String, Properties>>,
    ) -> (r: Self)
        ensures
            r@.user_id == user_id@,
            r@.user_name == USERNAME_ADMIN@,
            r@.email == email@,
            r@.password == password@,
            r@.realm == realm_view(realm),
            r@.properties == properties,
    {
        Self::new(user_id, USERNAME_ADMIN, email, password, realm, properties)
    }
}

impl Identity for User {
    fn identity_id(&self) -> (r: &str)
        ensures
            r@ == self@.user_id,
    {
        self.user_id.as_str()
    }

    /// The realm that the user was made with, or [`REALM_DEFAULT`].
    fn realm(&self) -> (r: &str)
        ensures
            r@ == match self@.realm {
                Some(name) => name,
                None => REALM_DEFAULT@,
            },
    {
        match &self.realm {
            Some(name) => name.as_str(),
            None => REALM_DEFAULT,
        }
    }

    /// The one credential of a user: its user name.
    fn credentials(&self) -> (r: Vec<Credential>)
        ensures
            r@.len() == 1,
            r@[0] is User,
            r@[0].identifier() == self@.user_name,
    {
        let mut all = Vec::new();
        all.push(Credential::User(CredentialUser::new(self.user_name.as_str())));
        all
    }

    /// Checks `against` against the user's password.
    fn verify_challenge(&self, against: &str) -> (r: ResultPwd<()>)
        ensures
            r is Ok <==> self@.password.accepts(against@),
            error_of(r) == self@.password.algo.verdict(self@.password.encoded, against@).error(),
    {
        self.password.validate_password(against)
    }
}

/// A principal that is known by an identifier only. The identifier lets the
/// application make a lasting user of it later.
#[derive(Debug, Clone, Ord, PartialOrd, Eq, PartialEq, Hash)]
pub struct UserAnonymous {
    anon_id: String,
}

impl UserAnonymous {
    /// The identifier of the principal.
    pub closed spec fn anon_id(&self) -> Seq<char> {
        self.anon_id@
    }

    /// The anonymous principal with the identifier `anon_id`.
    pub fn new(anon_id: &str) -> (r: Self)
        ensures
            r.anon_id() == anon_id@,
    {
        UserAnonymous { anon_id: anon_id.to_string() }
    }
}

impl Identity for UserAnonymous {
    fn identity_id(&self) -> (r: &str)
        ensures
            r@ == self.anon_id(),
    {
        self.anon_id.as_str()
    }

    /// The one credential of an anonymous principal: its identifier.
    fn credentials(&self) -> (r: Vec<Credential>)
        ensures
            r@.len() == 1,
            r@[0] is Anon,
            r@[0].identifier() == self.anon_id(),
    {
        let mut all = Vec::new();
        all.push(Credential::Anon(self.anon_id.clone()));
        all
    }

    /// An anonymous principal has no password: every answer fails with
    /// `InvalidPassword`.
    fn verify_challenge(&self, against: &str) -> (r: ResultPwd<()>)
        ensures
            error_of(r) == Some(PasswordErrorView::InvalidPassword),
    {
        Err(PasswordError::InvalidPassword)
    }
}

/// A user who logs in by user name and password.
#[derive(Clone, Ord, PartialOrd, Eq, PartialEq, Hash)]
pub struct UserPass {
    pub username: String,
    pub pwd: Password,
}

impl UserPass {
    /// The user `username` with the password `pwd`.
    pub fn new(username: &str, pwd: Password) -> (r: Self)
        ensures
            r.username@ == username@,
            r.pwd == pwd,
    {
        UserPass { username: username.to_string(), pwd }
    }
}

impl Identity for UserPass {
    fn identity_id(&self) -> (r: &str)
        ensures
            r@ == self.username@,
    {
        self.username.as_str()
    }

    /// The one credential of the user: its user name.
    fn credentials(&self) -> (r: Vec<Credential>)
        ensures
            r@.len() == 1,
            r@[0] == Credential::User(CredentialUser { username: self.username }),
    {
        let mut all = Vec::new();
        all.push(Credential::User(CredentialUser { username: self.username.clone() }));
        all
    }

    /// Checks `against` against the user's password.
    fn verify_challenge(&self, against: &str) -> (r: ResultPwd<()>)
        ensures
            r is Ok <==> self.pwd@.accepts(against@),
            error_of(r) == self.pwd@.algo.verdict(self.pwd@.encoded, against@).error(),
    {
        self.pwd.validate_password(against)
    }
}

/// A user who logs in by email address and password.
#[derive(Clone, Ord, PartialOrd, Eq, PartialEq, Hash)]
pub struct EmailPass {
    pub email: String,
    pub pwd: Password,
}

impl Identity for EmailPass {
    fn identity_id(&self) -> (r: &str)
        ensures
            r@ == self.email@,
    {
        self.email.as_str()
    }

    /// The one credential of the user: its email address.
    fn credentials(&self) -> (r: Vec<Credential>)
        ensures
            r@.len() == 1,
            r@[0] == Credential::UserEmail(CredentialEmail { email: self.email }),
    {
        let mut all = Vec::new();
        all.push(Credential::UserEmail(CredentialEmail { email: self.email.clone() }));
        all
    }

    /// Checks `against` against the user's password.
    fn verify_challenge(&self, against: &str) -> (r: ResultPwd<()>)
        ensures
            r is Ok <==> self.pwd@.accepts(against@),
            error_of(r) == self.pwd@.algo.verdict(self.pwd@.encoded, against@).error(),
    {
        self.pwd.validate_password(against)
    }
}

} // verus!
