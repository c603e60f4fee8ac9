//! Who a principal is, and the service that says so.
//!
//! An [`Identity`] is a customer, an employee, a device, an application: the
//! "who" of a system. An [`IdentityProvider`] finds identities in its storage
//! and logs principals in. The library states what a provider has to offer
//! and makes the decision of a login; the storage is the provider's own.

use crate::credentials::Credential;
use crate::credentials::CredentialEmail;
use crate::credentials::CredentialUser;
use crate::errors::AuthError;
use crate::errors::AuthErrorView;
use crate::errors::PasswordErrorView;
use crate::errors::ResultAuth;
use crate::errors::ResultPwd;
use crate::forms::EmailPassForm;
use crate::forms::UserPassForm;
use crate::password::error_of;
use crate::properties::Properties;
use crate::token::Token;
use std::collections::HashMap;
use vstd::prelude::*;

verus! {

/// The realm of an identity that names none.
pub const REALM_DEFAULT: &'static str = "GLOBAL";

/// The "who" of a system.
pub trait Identity {
    /// The identifier, which no other identity of the realm has.
    fn identity_id(&self) -> &str;

    /// The name to show to people. By default there is none.
    fn display_name(&self) -> (r: Option<String>)
        default_ensures
            r is None,
    {
        None
    }

    /// The realm that the identity belongs to: a company, a web domain. By
    /// default it is [`REALM_DEFAULT`].
    fn realm(&self) -> (r: &str)
        default_ensures
            r@ == REALM_DEFAULT@,
    {
        REALM_DEFAULT
    }

    /// What the identity may do. By default nothing is listed.
    fn permissions(&self) -> (r: &[String])
        default_ensures
            r@.len() == 0,
    {
        &[]
    }

    /// The roles of the identity. By default none is listed.
    fn roles(&self) -> (r: &[String])
        default_ensures
            r@.len() == 0,
    {
        &[]
    }

    /// The credentials by which the identity can be proved. By default none
    /// is listed.
    fn credentials(&self) -> (r: Vec<Credential>)
        default_ensures
            r@.len() == 0,
    {
        Vec::new()
    }

    /// Further data of the identity. By default there is none.
    fn properties(&self) -> (r: Option<HashMap<String, Properties>>)
        default_ensures
            r is None,
    {
        None
    }

    /// Checks the answer `against` to the challenge of this identity, which
    /// for most is its password.
    fn verify_challenge(&self, against: &str) -> ResultPwd<()>;
}

/// A service that finds identities and ends their sessions. `Form` is what a
/// principal sends to log in.
pub trait IdentityProvider<Form> {
    type Identity: Identity;

    /// The identity with the identifier `id`, if storage holds one.
    fn find(&self, id: &str) -> ResultAuth<Option<Self::Identity>>;

    /// The identity that `token` names, if the token is still in force.
    fn find_by_token(&self, token: &Token) -> ResultAuth<Option<Self::Identity>>;

    /// Ends the session of `token`; tells whether there was one.
    fn logout(&self, token: &Token) -> ResultAuth<bool>;
}

/// What a login with the name or address `named` comes to, given what the
/// provider found: nothing (`None`), or an identity and what its challenge
/// gave for the password of the form. The result is the identifier that the
/// token names, or the error.
pub open spec fn login_spec(
    named: Seq<char>,
    challenge: Option<Option<PasswordErrorView>>,
    missing: AuthErrorView,
) -> Result<Seq<char>, AuthErrorView> {
    match challenge {
        None => Err(missing),
        Some(Some(err)) => Err(AuthErrorView::Password(err)),
        Some(None) => Ok(named),
    }
}

/// What the provider learned of a login, with the texts as sequences of
/// characters.
pub open spec fn challenge_view(challenge: Option<ResultPwd<()>>) -> Option<
    Option<PasswordErrorView>,
> {
    match challenge {
        None => None,
        Some(r) => Some(error_of(r)),
    }
}

/// What a result of a login holds: the identifier that the token names, or
/// the error with its texts as sequences of characters.
pub open spec fn login_view(r: ResultAuth<Token>) -> Result<Seq<char>, AuthErrorView> {
    match r {
        Ok(token) => Ok(token.spec_identity_id()),
        Err(err) => Err(err@),
    }
}

/// Decides a login by user name, once the provider has looked the user up.
///
/// `challenge` is `None` where no user of that name was found, and else what
/// the user's challenge gave for the password of the form. The login fails
/// with `UserNotFound` in the first case and with the error of the challenge
/// where that failed. Else it succeeds with a token for the credential of
/// the user, without expiry and without further data.
pub fn user_login(form: &UserPassForm, challenge: Option<ResultPwd<()>>) -> (r: ResultAuth<Token>)
    ensures
        login_view(r) == login_spec(
            form.username@,
            challenge_view(challenge),
            AuthErrorView::UserNotFound { named: form.username@ },
        ),
        r matches Ok(token) ==> token.is_fresh_for(
            Credential::User(CredentialUser { username: form.username }),
        ),
{
    match challenge {
        None => Err(AuthError::UserNotFound { named: form.username.clone() }),
        Some(Err(err)) => Err(AuthError::Password(err)),
        Some(Ok(())) => Ok(
            Token::new(
                Credential::User(CredentialUser { username: form.username.clone() }),
                None,
                None,
            ),
        ),
    }
}

/// Decides a login by email address, once the provider has looked the
/// address up.
///
/// `challenge` is `None` where no identity with that address was found, and
/// else what the identity's challenge gave for the password of the form.
/// The login fails with `EmailNotFound` in the first case and with the error
/// of the challenge where that failed. Else it succeeds with a token for the
/// credential of the address, without expiry and without further data.
pub fn email_login(form: &EmailPassForm, challenge: Option<ResultPwd<()>>) -> (r: ResultAuth<
    Token,
>)
    ensures
        login_view(r) == login_spec(
            form.email@,
            challenge_view(challenge),
            AuthErrorView::EmailNotFound { email: form.email@ },
        ),
        r matches Ok(token) ==> token.is_fresh_for(
            Credential::UserEmail(CredentialEmail { email: form.email }),
        ),
{
    match challenge {
        None => Err(AuthError::EmailNotFound { email: form.email.clone() }),
        Some(Err(err)) => Err(AuthError::Password(err)),
        Some(Ok(())) => Ok(
            Token::new(
                Credential::UserEmail(CredentialEmail { email: form.email.clone() }),
                None,
                None,
            ),
        ),
    }
}

/// Whether `r` is what a login comes to once the provider has answered
/// with `found`: the provider's error; or what [`login_spec`] gives for no
/// identity; or, for some answer that the challenge of the identity found
/// may give to the password `pwd`, what [`login_spec`] gives for that
/// answer. A token that comes out is for `credential`, does not expire and
/// carries no further data.
pub open spec fn is_login_after<I: Identity>(
    found: ResultAuth<Option<I>>,
    named: Seq<char>,
    pwd: Seq<char>,
    missing: AuthErrorView,
    credential: Credential,
    r: ResultAuth<Token>,
) -> bool {
    match found {
        Err(err) => r == Err::<Token, AuthError>(err),
        Ok(None) => login_view(r) == login_spec(named, None, missing),
        Ok(Some(user)) => exists|answer: &str, challenge: ResultPwd<()>|
            answer@ == pwd && #[trigger] call_ensures(
                I::verify_challenge,
                (&user, answer),
                challenge,
            ) && login_view(r) == login_spec(named, Some(error_of(challenge)), missing) && (r matches Ok(
                token,
            ) ==> token.is_fresh_for(credential)),
    }
}

/// Whether `r` is what a login by user name comes to at `provider`: for
/// some answer that the provider may give when asked for the user of the
/// form, `r` is what [`is_login_after`] says.
pub open spec fn is_user_login<P: IdentityProvider<UserPassForm> + ?Sized>(
    provider: &P,
    form: &UserPassForm,
    r: ResultAuth<Token>,
) -> bool {
    exists|id: &str, found: ResultAuth<Option<P::Identity>>|
        id@ == form.username@ && #[trigger] call_ensures(P::find, (provider, id), found)
            && is_login_after(
            found,
            form.username@,
            form.pwd@,
            AuthErrorView::UserNotFound { named: form.username@ },
            Credential::User(CredentialUser { username: form.username }),
            r,
        )
}

/// Whether `r` is what a login by email address comes to at `provider`: for
/// some answer that the provider may give when asked for the address of the
/// form, `r` is what [`is_login_after`] says.
pub open spec fn is_email_login<P: IdentityProvider<EmailPassForm> + ?Sized>(
    provider: &P,
    form: &EmailPassForm,
    r: ResultAuth<Token>,
) -> bool {
    exists|id: &str, found: ResultAuth<Option<P::Identity>>|
        id@ == form.email@ && #[trigger] call_ensures(P::find, (provider, id), found)
            && is_login_after(
            found,
            form.email@,
            form.pwd@,
            AuthErrorView::EmailNotFound { email: form.email@ },
            Credential::UserEmail(CredentialEmail { email: form.email }),
            r,
        )
}

/// A provider that logs principals in by user name and password.
pub trait IdentityProviderUserPwd: IdentityProvider<UserPassForm> {
    /// Logs the principal of the form in. By default this is what
    /// [`Self::verify_password`] does.
    fn login(&self, identity: &UserPassForm) -> (r: ResultAuth<Token>)
        default_ensures
            call_ensures(Self::verify_password, (self, identity), r),
    {
        self.verify_password(identity)
    }

    /// Checks the password of the form. By default this looks the user of
    /// the form up and asks the user's challenge: an error of the provider
    /// comes back as it is; a user that is not there fails with
    /// `UserNotFound`; a challenge that fails, with its error; and else the
    /// token for the user's credential comes back.
    fn verify_password(&self, credentials: &UserPassForm) -> (r: ResultAuth<Token>)
        default_ensures
            is_user_login(self, credentials, r),
    {
        let id = credentials.username.as_str();
        let found = self.find(id);
        let ghost asked = found;
        let r = match found {
            Err(err) => Err(err),
            Ok(None) => user_login(credentials, None),
            Ok(Some(user)) => {
                let answer = credentials.pwd.as_str();
                let challenge = user.verify_challenge(answer);
                let ghost given = challenge;
                let r = user_login(credentials, Some(challenge));
                assert(call_ensures(
                    <Self::Identity as Identity>::verify_challenge,
                    (&user, answer),
                    given,
                ));
                r
            },
        };
        assert(call_ensures(Self::find, (self, id), asked));
        r
    }
}

/// A provider that logs principals in by email address and password.
pub trait IdentityProviderEmailPwd: IdentityProvider<EmailPassForm> {
    /// Logs the principal of the form in. By default this is what
    /// [`Self::verify_password`] does.
    fn login(&self, identity: &EmailPassForm) -> (r: ResultAuth<Token>)
        default_ensures
            call_ensures(Self::verify_password, (self, identity), r),
    {
        self.verify_password(identity)
    }

    /// Checks the password of the form. By default this looks the address
    /// of the form up and asks the challenge of the identity found: an error
    /// of the provider comes back as it is; an address that is not there
    /// fails with `EmailNotFound`; a challenge that fails, with its error;
    /// and else the token for the address's credential comes back.
    fn verify_password(&self, credentials: &EmailPassForm) -> (r: ResultAuth<Token>)
        default_ensures
            is_email_login(self, credentials, r),
    {
        let id = credentials.email.as_str();
        let found = self.find(id);
        let ghost asked = found;
        let r = match found {
            Err(err) => Err(err),
            Ok(None) => email_login(credentials, None),
            Ok(Some(user)) => {
                let answer = credentials.pwd.as_str();
                let challenge = user.verify_challenge(answer);
                let ghost given = challenge;
                let r = email_login(credentials, Some(challenge));
                assert(call_ensures(
                    <Self::Identity as Identity>::verify_challenge,
                    (&user, answer),
                    given,
                ));
                r
            },
        };
        assert(call_ensures(Self::find, (self, id), asked));
        r
    }
}

} // verus!
