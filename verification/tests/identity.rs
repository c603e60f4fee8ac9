use forbidden::credentials::Credential;
use forbidden::credentials::CredentialEmail;
use forbidden::credentials::CredentialToken;
use forbidden::credentials::CredentialUser;
use forbidden::errors::AuthError;
use forbidden::errors::PasswordError;
use forbidden::errors::ResultAuth;
use forbidden::errors::ResultPwd;
use forbidden::forms::EmailPassForm;
use forbidden::forms::TokenForm;
use forbidden::forms::UserPassForm;
use forbidden::identity::email_login;
use forbidden::identity::user_login;
use forbidden::identity::Identity;
use forbidden::identity::IdentityProvider;
use forbidden::identity::IdentityProviderEmailPwd;
use forbidden::identity::IdentityProviderUserPwd;
use forbidden::identity::REALM_DEFAULT;
use forbidden::password::Password;
use forbidden::password::PasswordIsSafe;
use forbidden::properties::Properties;
use forbidden::properties::TimeStamp;
use forbidden::token::Token;
use forbidden::users::EmailPass;
use forbidden::users::User;
use forbidden::users::UserAnonymous;
use forbidden::users::UserPass;
use forbidden::users::USERNAME_ADMIN;
use std::collections::BTreeMap;
use std::collections::HashMap;

const STORED_HI: &str =
    "$argon2id$v=19$m=4096,t=3,p=1$B+wShXe3YjVd5C8oh4x3pw$XxZJ3BnZMGnBNwPnXrvVM4MMAeFzxf9yxkbXAPcvBzQ";

const TEST_PWD: &str = "1";
const USER_1: &str = "user1";
const USER_2: &str = "user2";

struct ByPass {}

impl PasswordIsSafe for ByPass {
    fn is_safe(&self, _raw: &str) -> ResultPwd<()> {
        Ok(())
    }
}

struct TestProvider {
    users: [UserPass; 2],
}

impl TestProvider {
    pub fn new() -> Self {
        let p = Password::hash_check(TEST_PWD, ByPass {}).unwrap();
        let u1 = UserPass::new(USER_1, p.clone());
        let u2 = UserPass::new(USER_2, p);

        TestProvider { users: [u1, u2] }
    }
}

impl IdentityProvider<UserPassForm> for TestProvider {
    type Identity = UserPass;

    fn find(&self, id: &str) -> ResultAuth<Option<Self::Identity>> {
        Ok(self.users.iter().find(|x| x.identity_id() == id).cloned())
    }

    fn find_by_token(&self, token: &Token) -> ResultAuth<Option<Self::Identity>> {
        self.find(token.identity_id())
    }

    fn logout(&self, _token: &Token) -> ResultAuth<bool> {
        Ok(true)
    }
}

impl IdentityProviderUserPwd for TestProvider {}

struct MailProvider {
    user: EmailPass,
}

impl IdentityProvider<EmailPassForm> for MailProvider {
    type Identity = EmailPass;

    fn find(&self, id: &str) -> ResultAuth<Option<Self::Identity>> {
        if id == "down@example.org" {
            return Err(AuthError::Other("storage is down".to_string()));
        }
        if self.user.email == id {
            Ok(Some(self.user.clone()))
        } else {
            Ok(None)
        }
    }

    fn find_by_token(&self, token: &Token) -> ResultAuth<Option<Self::Identity>> {
        self.find(token.identity_id())
    }

    fn logout(&self, _token: &Token) -> ResultAuth<bool> {
        Ok(false)
    }
}

impl IdentityProviderEmailPwd for MailProvider {}

#[test]
fn user_provider() {
    let idp = TestProvider::new();

    assert!(idp.find(USER_1).map(|x| x.is_some()).unwrap_or(false));

    let mut form = UserPassForm::new(USER_1, "wrong");
    assert!(idp.login(&form).is_err());
    form.pwd = TEST_PWD.into();
    assert!(idp.login(&form).is_ok());
}

#[test]
fn two_users_with_one_secret() {
    let idp = TestProvider::new();

    let found = idp.find(USER_1).unwrap().unwrap();
    assert_eq!(found.identity_id(), USER_1);
    assert!(found.pwd.validate_password("1").is_ok());
    assert!(matches!(
        found.pwd.validate_password("wrong"),
        Err(PasswordError::InvalidPassword)
    ));
    assert!(idp.find("user3").unwrap().is_none());

    let wrong = UserPassForm::new(USER_1, "wrong");
    assert!(matches!(
        idp.login(&wrong),
        Err(AuthError::Password(PasswordError::InvalidPassword))
    ));

    let right = UserPassForm::new(USER_1, "1");
    let token = idp.login(&right).unwrap();
    assert_eq!(token.identity_id(), "user1");
    assert!(token == Token::from(&right));

    let other = idp.login(&UserPassForm::new(USER_2, "1")).unwrap();
    assert_eq!(other.identity_id(), "user2");

    match idp.login(&UserPassForm::new("user3", "1")) {
        Err(AuthError::UserNotFound { named }) => assert_eq!(named, "user3"),
        _ => panic!("a user that is not there logged in"),
    }

    let back = idp.find_by_token(&token).unwrap().unwrap();
    assert_eq!(back.identity_id(), "user1");
    assert!(idp.logout(&token).unwrap());
}

#[test]
fn login_by_email() {
    let idp = MailProvider {
        user: EmailPass {
            email: "ada@example.org".to_string(),
            pwd: Password::new(STORED_HI).unwrap(),
        },
    };
    let token = idp
        .login(&EmailPassForm::new("ada@example.org", "hi"))
        .unwrap();
    assert_eq!(token.identity_id(), "ada@example.org");
    assert!(matches!(
        idp.login(&EmailPassForm::new("ada@example.org", "ho")),
        Err(AuthError::Password(PasswordError::InvalidPassword))
    ));
    match idp.login(&EmailPassForm::new("bob@example.org", "hi")) {
        Err(AuthError::EmailNotFound { email }) => assert_eq!(email, "bob@example.org"),
        _ => panic!("an address that is not there logged in"),
    }
    match idp.verify_password(&EmailPassForm::new("down@example.org", "hi")) {
        Err(AuthError::Other(text)) => assert_eq!(text, "storage is down"),
        _ => panic!("the error of the storage was lost"),
    }
}

#[test]
fn login_decision_for_each_outcome() {
    let form = UserPassForm::new("ada", "secret");
    match user_login(&form, None) {
        Err(AuthError::UserNotFound { named }) => assert_eq!(named, "ada"),
        _ => panic!("a missing user logged in"),
    }
    assert!(matches!(
        user_login(&form, Some(Err(PasswordError::InvalidPassword))),
        Err(AuthError::Password(PasswordError::InvalidPassword))
    ));
    assert!(matches!(
        user_login(
            &form,
            Some(Err(PasswordError::HashError(password_hash::Error::Crypto)))
        ),
        Err(AuthError::Password(PasswordError::HashError(
            password_hash::Error::Crypto
        )))
    ));
    let token = user_login(&form, Some(Ok(()))).unwrap();
    assert_eq!(token.identity_id(), "ada");
    assert!(token == Token::new(Credential::User(CredentialUser::new("ada")), None, None));

    let mail = EmailPassForm::new("ada@example.org", "secret");
    match email_login(&mail, None) {
        Err(AuthError::EmailNotFound { email }) => assert_eq!(email, "ada@example.org"),
        _ => panic!("a missing address logged in"),
    }
    assert!(matches!(
        email_login(&mail, Some(Err(PasswordError::InvalidPassword))),
        Err(AuthError::Password(PasswordError::InvalidPassword))
    ));
    let token = email_login(&mail, Some(Ok(()))).unwrap();
    assert_eq!(token.identity_id(), "ada@example.org");
    let credential = Credential::UserEmail(CredentialEmail {
        email: "ada@example.org".to_string(),
    });
    assert!(token == Token::new(credential, None, None));
}

#[test]
fn token_names_the_field_of_its_credential() {
    let anon = Token::new(Credential::Anon("guest-7".to_string()), None, None);
    assert_eq!(anon.identity_id(), "guest-7");
    let user = Token::new(CredentialUser::new("ada").into(), None, None);
    assert_eq!(user.identity_id(), "ada");
    let email = Token::new(
        CredentialEmail {
            email: "ada@example.org".to_string(),
        }
        .into(),
        None,
        None,
    );
    assert_eq!(email.identity_id(), "ada@example.org");
    let opaque = Token::new(
        Credential::Token(CredentialToken {
            data: "0xfeed".to_string(),
        }),
        None,
        None,
    );
    assert_eq!(opaque.identity_id(), "0xfeed");
}

#[test]
fn token_keeps_expiry_and_properties() {
    let expire = TimeStamp {
        secs: 1_700_000_000,
        nanos: 5,
        offset: 3600,
    };
    let mut properties = BTreeMap::new();
    properties.insert("admin".to_string(), Properties::Bool(true));
    properties.insert("logins".to_string(), Properties::I32(3));
    properties.insert("quota".to_string(), Properties::I64(1 << 40));
    properties.insert("note".to_string(), Properties::Str("x".to_string()));
    properties.insert("since".to_string(), Properties::DateTime(expire));
    let credential = Credential::Anon("guest".to_string());
    let token = Token::new(credential.clone(), Some(expire), Some(properties.clone()));
    assert_eq!(token.identity_id(), "guest");
    assert_eq!(token.credential(), &credential);
    assert_eq!(token.expire(), Some(expire));
    assert_eq!(token.properties(), &Some(properties.clone()));
    assert_eq!(
        token,
        Token::new(credential.clone(), Some(expire), Some(properties))
    );
    let plain = Token::new(credential.clone(), None, None);
    assert_eq!(plain.expire(), None);
    assert!(plain.properties().is_none());
    assert_ne!(token, Token::new(credential, None, None));
}

#[test]
fn token_of_a_form_leaves_the_password_out() {
    let form = UserPassForm::new("ada", "a raw secret");
    let token = Token::from(&form);
    assert_eq!(token.identity_id(), "ada");
    assert_eq!(
        token,
        Token::new(Credential::User(CredentialUser::new("ada")), None, None)
    );
    assert!(!format!("{:?}", token).contains("a raw secret"));

    let form = EmailPassForm::new("ada@example.org", "a raw secret");
    let token = Token::from(&form);
    assert_eq!(token.identity_id(), "ada@example.org");
    assert!(!format!("{:?}", token).contains("a raw secret"));
}

#[test]
fn forms_and_credentials_hold_what_they_were_given() {
    let form = UserPassForm::new("ada", "pw");
    assert_eq!(form.username, "ada");
    assert_eq!(form.pwd, "pw");
    let form = EmailPassForm::new("ada@example.org", "pw");
    assert_eq!(form.email, "ada@example.org");
    assert_eq!(form.pwd, "pw");
    let form = TokenForm {
        data: "opaque".to_string(),
    };
    assert_eq!(form.data, "opaque");

    let user = CredentialUser::new("ada");
    assert_eq!(user.username, "ada");
    assert_eq!(
        Credential::from(user.clone()),
        Credential::User(user.clone())
    );
    let email = CredentialEmail {
        email: "ada@example.org".to_string(),
    };
    assert_eq!(
        Credential::from(email.clone()),
        Credential::UserEmail(email)
    );
    assert!(Credential::Anon("a".to_string()) < Credential::User(user));
    assert_ne!(
        Credential::Anon("ada".to_string()),
        Credential::User(CredentialUser::new("ada"))
    );
    assert_ne!(
        Credential::User(CredentialUser::new("ada")),
        Credential::User(CredentialUser::new("bob"))
    );
    assert_eq!(
        Credential::Token(CredentialToken {
            data: "t".to_string()
        }),
        Credential::Token(CredentialToken {
            data: "t".to_string()
        })
    );
}

#[test]
fn password_error_becomes_auth_error() {
    assert!(matches!(
        AuthError::from(PasswordError::InvalidPassword),
        AuthError::Password(PasswordError::InvalidPassword)
    ));
    assert!(matches!(
        AuthError::from(PasswordError::MinimumPasswordLength { provided: 3 }),
        AuthError::Password(PasswordError::MinimumPasswordLength { provided: 3 })
    ));
}

#[test]
fn user_is_an_identity() {
    let password = Password::new(STORED_HI).unwrap();
    let user = User::new(
        "id-1",
        "ada",
        "ada@example.org",
        password.clone(),
        None,
        None,
    );
    assert_eq!(user.identity_id(), "id-1");
    assert_eq!(user.realm(), REALM_DEFAULT);
    assert_eq!(user.realm(), "GLOBAL");
    assert_eq!(
        user.credentials(),
        vec![Credential::User(CredentialUser::new("ada"))]
    );
    assert!(user.display_name().is_none());
    assert!(user.permissions().is_empty());
    assert!(user.roles().is_empty());
    assert!(user.properties().is_none());
    assert!(user.verify_challenge("hi").is_ok());
    assert!(matches!(
        user.verify_challenge("ho"),
        Err(PasswordError::InvalidPassword)
    ));

    let mut properties = HashMap::new();
    properties.insert("theme".to_string(), Properties::Str("dark".to_string()));
    let tenant = User::new(
        "id-2",
        "bob",
        "bob@example.org",
        password.clone(),
        Some("example.org"),
        Some(properties),
    );
    assert_eq!(tenant.realm(), "example.org");
    assert!(tenant != user);
    assert!(tenant == tenant.clone());

    let admin = User::new_admin("id-0", "root@example.org", password, Some("ops"), None);
    assert_eq!(admin.identity_id(), "id-0");
    assert_eq!(admin.realm(), "ops");
    assert_eq!(
        admin.credentials(),
        vec![Credential::User(CredentialUser::new(USERNAME_ADMIN))]
    );
    assert_eq!(USERNAME_ADMIN, "admin");
}

#[test]
fn the_other_users_are_identities() {
    let password = Password::new(STORED_HI).unwrap();

    let user = UserPass::new("ada", password.clone());
    assert_eq!(user.username, "ada");
    assert!(user.pwd == password);
    assert_eq!(user.identity_id(), "ada");
    assert_eq!(user.realm(), "GLOBAL");
    assert_eq!(
        user.credentials(),
        vec![Credential::User(CredentialUser::new("ada"))]
    );
    assert!(user.verify_challenge("hi").is_ok());
    assert!(user.verify_challenge("no").is_err());

    let mail = EmailPass {
        email: "ada@example.org".to_string(),
        pwd: password,
    };
    assert_eq!(mail.identity_id(), "ada@example.org");
    assert_eq!(
        mail.credentials(),
        vec![Credential::UserEmail(CredentialEmail {
            email: "ada@example.org".to_string()
        })]
    );
    assert!(mail.verify_challenge("hi").is_ok());
    assert!(mail.verify_challenge("").is_err());

    let guest = UserAnonymous::new("guest-7");
    assert_eq!(guest.identity_id(), "guest-7");
    assert_eq!(
        guest.credentials(),
        vec![Credential::Anon("guest-7".to_string())]
    );
    assert!(matches!(
        guest.verify_challenge(""),
        Err(PasswordError::InvalidPassword)
    ));
    assert!(matches!(
        guest.verify_challenge("anything"),
        Err(PasswordError::InvalidPassword)
    ));
}
