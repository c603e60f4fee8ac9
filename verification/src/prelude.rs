//! What most users of the library import.

pub use crate::credentials::Credential;
pub use crate::errors::AuthError;
pub use crate::errors::PasswordError;
pub use crate::errors::ResultAuth;
pub use crate::errors::ResultPwd;
pub use crate::identity::Identity;
pub use crate::identity::IdentityProvider;
pub use crate::identity::IdentityProviderUserPwd;
pub use crate::identity::REALM_DEFAULT;
pub use crate::password;
pub use crate::password::Password;
pub use crate::password::PasswordIsSafe;
pub use crate::properties::Properties;
pub use crate::token::Token;
