//! The legacy backend: scrypt, as the `scrypt` crate computes it, with that
//! crate's recommended parameters.

use crate::password::Verdict;
use crate::phc::is_salt;
use crate::phc::parsed_view;
use crate::phc::ParsedHash;
use crate::phc::ParsedHashView;
use password_hash::PasswordHash;
use password_hash::PasswordHasher;
use password_hash::PasswordVerifier;
use scrypt::Scrypt;
use vstd::prelude::*;

verus! {

/// The hash that scrypt with its recommended parameters gives for
/// the password `raw` and the salt `salt`, or the reason for which it gives
/// none.
pub uninterp spec fn scrypt_hashed(raw: Seq<char>, salt: Seq<char>) -> Result<
    ParsedHashView,
    password_hash::Error,
>;

/// What checking `candidate` against the encoded hash `phc` comes to, when
/// scrypt does it with the parameters that `phc` carries.
pub uninterp spec fn scrypt_verdict(phc: Seq<char>, candidate: Seq<char>) -> Verdict;

/// Calls `hash_password` of `scrypt::Scrypt` on the bytes of `raw` and on
/// `salt`, and keeps of the hash its identifier and the line that
/// `to_string` gives for it.
///
/// Not proved, but taken from that crate: the result is a function of
/// password and salt alone, named [`scrypt_hashed`]; a hash that comes out
/// names the algorithm `scrypt`, and its line reads back as the same hash;
/// checking the password that was hashed against that line succeeds, as
/// the crate's own description of its use shows; and the call succeeds
/// where the salt is 16 bytes in canonical base 64, which is the only input
/// that the function tests.
#[verifier::external_body]
pub(crate) fn hash_password(raw: &str, salt: &str) -> (r: Result<
    ParsedHash,
    password_hash::Error,
>)
    ensures
        parsed_view(r) == scrypt_hashed(raw@, salt@),
        r matches Ok(hash) ==> hash.wf() && hash@.algorithm == "scrypt"@,
        r matches Ok(hash) ==> scrypt_verdict(hash@.encoded, raw@) == Verdict::Match,
        is_salt(salt@) ==> r is Ok,
{
    let hash = Scrypt.hash_password(raw.as_bytes(), salt)?;
    Ok(ParsedHash { algorithm: hash.algorithm.as_str().to_string(), encoded: hash.to_string() })
}

/// Parses `phc` with `password_hash::PasswordHash::new` and calls
/// `verify_password` of `scrypt::Scrypt` on the bytes of `against` and the
/// parsed hash. The error `Password` of that call is the mismatch; every
/// other error, and a line that does not parse, is a failure.
///
/// Not proved, but taken from that crate: the result is a function of the
/// line and the candidate alone, named [`scrypt_verdict`]. The memory and
/// time that the call takes are those that the parameters in `phc` ask for.
#[verifier::external_body]
pub(crate) fn validate_password(phc: &str, against: &str) -> (v: Verdict)
    ensures
        v == scrypt_verdict(phc@, against@),
{
    let hash = match PasswordHash::new(phc) {
        Ok(hash) => hash,
        Err(cause) => return Verdict::Failed(cause),
    };
    match Scrypt.verify_password(against.as_bytes(), &hash) {
        Ok(()) => Verdict::Match,
        Err(password_hash::Error::Password) => Verdict::Mismatch,
        Err(cause) => Verdict::Failed(cause),
    }
}

} // verus!
