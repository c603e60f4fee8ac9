//! Identities, credentials and tokens around a password-hashing core.
//!
//! An application keeps its users in a storage of its own and tells the
//! library how to find them ([`identity::IdentityProvider`]). The library
//! decides a login, hands out the [`token::Token`], and above all takes care
//! of the passwords:
//!
//! - a raw password is hashed on the way in and never kept: a
//!   [`password::Password`] holds the encoded hash and the algorithm that
//!   made it;
//! - before a raw password is hashed, a policy says whether it is acceptable
//!   ([`password::PasswordIsSafe`]), and the algorithm's own limit on the
//!   length is enforced;
//! - the encoded hash is one line of text that names its algorithm
//!   ([`phc`]), so that a storage may hold hashes of several algorithms
//!   side by side;
//! - a password is checked by the backend of its own algorithm, and shows as
//!   a fixed marker wherever it is printed.
//!
//! The hashing itself is done by the crates `argon2` and `scrypt` and the
//! line is read by `password_hash`. What is taken from them without proof
//! is stated on the functions that call them, in [`phc`] and in the two
//! modules under [`password`].

pub mod credentials;
pub mod errors;
pub mod forms;
pub mod identity;
pub mod password;
pub mod phc;
pub mod prelude;
pub mod properties;
pub mod text;
pub mod token;
pub mod users;
