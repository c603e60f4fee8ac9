//! The token that a principal holds after it has logged in.
//!
//! Who holds a token that is in force is taken for the identity it names,
//! without showing the password again. Whether a token is still in force,
//! by its expiry or because the principal logged out, is for the provider
//! to say: a token only carries the data.

use crate::credentials::Credential;
use crate::credentials::CredentialEmail;
use crate::credentials::CredentialUser;
use crate::forms::EmailPassForm;
use crate::forms::UserPassForm;
use crate::properties::Properties;
use crate::properties::TimeStamp;
use std::collections::BTreeMap;
use vstd::prelude::*;
use vstd::std_specs::convert::FromSpec;
use vstd::std_specs::convert::FromSpecImpl;

verus! {

/// What a login hands out: the credential that was used, when the token
/// expires, and further data. The identity that the token names is the one
/// that the credential identifies.
#[derive(Debug, Clone, Ord, PartialOrd, Eq, PartialEq, Hash)]
pub struct Token {
    credential: Credential,
    expire: Option<TimeStamp>,
    properties: Option<BTreeMap<String, Properties>>,
}

impl Token {
    /// The credential that the token was made for.
    pub closed spec fn spec_credential(&self) -> Credential {
        self.credential
    }

    /// When the token expires, if it does.
    pub closed spec fn spec_expire(&self) -> Option<TimeStamp> {
        self.expire
    }

    /// The further data of the token, if it has any.
    pub closed spec fn spec_properties(&self) -> Option<BTreeMap<String, Properties>> {
        self.properties
    }

    /// The identifier of the identity that the token names: the field of
    /// its credential that identifies the principal.
    pub open spec fn spec_identity_id(&self) -> Seq<char> {
        self.spec_credential().identifier()
    }

    /// Whether the token is for `credential`, does not expire and carries no
    /// further data: what a login hands out.
    pub open spec fn is_fresh_for(&self, credential: Credential) -> bool {
        &&& self.spec_credential() == credential
        &&& self.spec_expire().is_none()
        &&& self.spec_properties().is_none()
    }

    /// The token for `credential` that expires at `expire` and carries
    /// `properties`.
    pub fn new(
        credential: Credential,
        expire: Option<TimeStamp>,
        properties: Option<BTreeMap<String, Properties>>,
    ) -> (r: Self)
        ensures
            r.spec_credential() == credential,
            r.spec_expire() == expire,
            r.spec_properties() == properties,
    {
        Token { credential, expire, properties }
    }

    /// The credential that the token was made for.
    pub fn credential(&self) -> (r: &Credential)
        ensures
            *r == self.spec_credential(),
    {
        &self.credential
    }

    /// When the token expires, if it does. Whether a token has expired is
    /// for the provider to say, which knows the time.
    pub fn expire(&self) -> (r: Option<TimeStamp>)
        ensures
            r == self.spec_expire(),
    {
        self.expire
    }

    /// The further data of the token, if it has any.
    pub fn properties(&self) -> (r: &Option<BTreeMap<String, Properties>>)
        ensures
            *r == self.spec_properties(),
    {
        &self.properties
    }

    /// The identifier of the identity that the token names.
    pub fn identity_id(&self) -> (id: &str)
        ensures
            id@ == self.spec_identity_id(),
    {
        match &self.credential {
            Credential::Anon(x) => x.as_str(),
            Credential::User(x) => x.username.as_str(),
            Credential::UserEmail(x) => x.email.as_str(),
            Credential::Token(x) => x.data.as_str(),
        }
    }
}

/// The token of a login by user name: for the credential of that user,
/// without expiry and without further data. The raw password of the form
/// stays out of it.
impl<'a> From<&'a UserPassForm> for Token {
    fn from(x: &'a UserPassForm) -> (r: Self) {
        Token::new(Credential::User(CredentialUser { username: x.username.clone() }), None, None)
    }
}

impl<'a> FromSpecImpl<&'a UserPassForm> for Token {
    open spec fn obeys_from_spec() -> bool {
        true
    }

    closed spec fn from_spec(x: &'a UserPassForm) -> Self {
        Token {
            credential: Credential::User(CredentialUser { username: x.username }),
            expire: None,
            properties: None,
        }
    }
}

/// The token of a login by email address: for the credential of that
/// address, without expiry and without further data. The raw password of
/// the form stays out of it.
impl<'a> From<&'a EmailPassForm> for Token {
    fn from(x: &'a EmailPassForm) -> (r: Self) {
        Token::new(Credential::UserEmail(CredentialEmail { email: x.email.clone() }), None, None)
    }
}

impl<'a> FromSpecImpl<&'a EmailPassForm> for Token {
    open spec fn obeys_from_spec() -> bool {
        true
    }

    closed spec fn from_spec(x: &'a EmailPassForm) -> Self {
        Token {
            credential: Credential::UserEmail(CredentialEmail { email: x.email }),
            expire: None,
            properties: None,
        }
    }
}

/// The token of a login by user name is for that user's credential alone:
/// it names the user of the form, and it neither expires nor carries
/// further data.
pub proof fn lemma_token_of_user_form(form: &UserPassForm)
    ensures
        ({
            let token = <Token as FromSpec<&UserPassForm>>::from_spec(form);
            &&& token.is_fresh_for(Credential::User(CredentialUser { username: form.username }))
            &&& token.spec_identity_id() == form.username@
        }),
{
}

/// The token of a login by email address is for that address's credential
/// alone: it names the address of the form, and it neither expires nor
/// carries further data.
pub proof fn lemma_token_of_email_form(form: &EmailPassForm)
    ensures
        ({
            let token = <Token as FromSpec<&EmailPassForm>>::from_spec(form);
            &&& token.is_fresh_for(Credential::UserEmail(CredentialEmail { email: form.email }))
            &&& token.spec_identity_id() == form.email@
        }),
{
}

} // verus!
