//! A password that is safe to store.
//!
//! A [`Password`] is made by hashing a raw string or by loading an encoded
//! hash from storage. It keeps the encoded hash and the algorithm, never the
//! raw string. The default algorithm is [`PasswordAlgo::Argon2`];
//! [`PasswordAlgo::Scrypt`] is there for hashes that older systems wrote.
//!
//! Before a raw string is hashed, a policy decides whether it is acceptable
//! ([`PasswordIsSafe`]). The functions whose names end in `_unsafe` skip the
//! policy; they ask for a [`PolicyWaiver`] so that a reader sees the choice.

pub mod hash_argon2;
pub mod hash_scrypt;

use crate::errors::PasswordError;
use crate::errors::PasswordErrorView;
use crate::errors::ResultPwd;
use crate::password::hash_argon2::argon2_hashed;
use crate::password::hash_argon2::argon2_verdict;
use crate::password::hash_scrypt::scrypt_hashed;
use crate::password::hash_scrypt::scrypt_verdict;
use crate::phc::decode;
use crate::phc::decode_spec;
use crate::phc::is_salt;
use crate::phc::parsed_view;
use crate::phc::phc_decoded;
use crate::phc::ParsedHash;
use crate::phc::ParsedHashView;
use crate::text::trimmed;
use crate::text::trimmed_char_count;
use password_hash::SaltString;
use rand_core::OsRng;
use std::str::FromStr;
use vstd::prelude::*;
use vstd::std_specs::cmp::PartialEqSpecImpl;
use vstd::string::StringSliceAdditionalSpecFns;

verus! {

/// The fewest characters that [`CheckPasswordMinSize`] accepts.
pub const MINIMUM_PASSWORD_LENGTH: usize = 8;

/// The most characters that Argon2 takes: the `argon2` crate's `MAX_PWD_LEN`.
pub const ARGON2_MAXIMUM_PASSWORD_LENGTH: usize = 0xFFFF_FFFF;

/// The most characters that scrypt is given, a limit kept from bcrypt.
pub const SCRYPT_MAXIMUM_PASSWORD_LENGTH: usize = 72;

/// What the text shown in place of a password is.
pub const REDACTED: &'static str = "****";

/// The error of `r`, if it is one.
pub open spec fn error_of<T>(r: Result<T, PasswordError>) -> Option<PasswordErrorView> {
    match r {
        Ok(_) => None,
        Err(err) => Some(err@),
    }
}

/// A policy on raw passwords: it accepts a candidate or objects to it. What
/// a policy objects to is its own affair: a length, a list of passwords
/// that are known to attackers, an estimate of entropy.
pub trait PasswordIsSafe {
    /// Decides on `raw`: `Ok` where the policy accepts it, else the objection.
    fn is_safe(&self, raw: &str) -> ResultPwd<()>;
}

/// The policy that wants at least [`MINIMUM_PASSWORD_LENGTH`] characters,
/// the white space at both ends not counted.
pub struct CheckPasswordMinSize;

/// A [`CheckPasswordMinSize`] ready for use.
pub const CHECKER_MIN_SIZE: CheckPasswordMinSize = CheckPasswordMinSize;

impl CheckPasswordMinSize {
    /// The objection of this policy to `raw`: `MinimumPasswordLength` with
    /// the number of characters, where they are too few.
    pub open spec fn objection(raw: Seq<char>) -> Option<PasswordErrorView> {
        if trimmed(raw).len() < MINIMUM_PASSWORD_LENGTH {
            Some(PasswordErrorView::MinimumPasswordLength { provided: trimmed(raw).len() })
        } else {
            None
        }
    }
}

impl PasswordIsSafe for CheckPasswordMinSize {
    fn is_safe(&self, raw: &str) -> (r: ResultPwd<()>)
        ensures
            error_of(r) == CheckPasswordMinSize::objection(raw@),
    {
        let provided = trimmed_char_count(raw);
        if provided < MINIMUM_PASSWORD_LENGTH {
            return Err(PasswordError::MinimumPasswordLength { provided });
        }
        Ok(())
    }
}

/// What checking a candidate against a stored hash came to.
pub enum Verdict {
    /// The candidate is the password that was hashed.
    Match,
    /// It is not.
    Mismatch,
    /// The check could not be made.
    Failed(password_hash::Error),
}

impl Verdict {
    /// The error that stands for this verdict; none for a match.
    pub open spec fn error(self) -> Option<PasswordErrorView> {
        match self {
            Verdict::Match => None,
            Verdict::Mismatch => Some(PasswordErrorView::InvalidPassword),
            Verdict::Failed(cause) => Some(PasswordErrorView::HashError(cause)),
        }
    }

    /// Turns the verdict into a result: `Ok` for a match, `InvalidPassword`
    /// for a mismatch, `HashError` with its cause for a failed check.
    pub fn into_result(self) -> (r: ResultPwd<()>)
        ensures
            error_of(r) == self.error(),
    {
        match self {
            Verdict::Match => Ok(()),
            Verdict::Mismatch => Err(PasswordError::InvalidPassword),
            Verdict::Failed(cause) => Err(PasswordError::HashError(cause)),
        }
    }
}

/// The algorithms that hash a password.
#[derive(Debug, Clone, Copy, Ord, PartialOrd, Eq, PartialEq, Hash, Structural)]
pub enum PasswordAlgo {
    Argon2,
    Scrypt,
}

impl PasswordAlgo {
    /// The algorithm that the identifier `ident` of an encoded hash names:
    /// Argon2 for its three variants, scrypt for `scrypt`, none for any other.
    pub open spec fn of_ident(ident: Seq<char>) -> Option<PasswordAlgo> {
        if ident == "argon2d"@ || ident == "argon2i"@ || ident == "argon2id"@ {
            Some(PasswordAlgo::Argon2)
        } else if ident == "scrypt"@ {
            Some(PasswordAlgo::Scrypt)
        } else {
            None
        }
    }

    /// The most characters of a raw password that this algorithm takes.
    pub open spec fn max_length_spec(self) -> nat {
        match self {
            PasswordAlgo::Argon2 => ARGON2_MAXIMUM_PASSWORD_LENGTH as nat,
            PasswordAlgo::Scrypt => SCRYPT_MAXIMUM_PASSWORD_LENGTH as nat,
        }
    }

    /// Whether this algorithm's backend takes a raw password of `bytes`
    /// bytes. Argon2 takes no more than its maximum; scrypt takes any.
    pub open spec fn takes(self, bytes: nat) -> bool {
        match self {
            PasswordAlgo::Argon2 => bytes <= ARGON2_MAXIMUM_PASSWORD_LENGTH,
            PasswordAlgo::Scrypt => true,
        }
    }

    /// What this algorithm's backend gives for the password `raw` and the
    /// salt `salt`.
    pub open spec fn hashed(self, raw: Seq<char>, salt: Seq<char>) -> Result<
        ParsedHashView,
        password_hash::Error,
    > {
        match self {
            PasswordAlgo::Argon2 => argon2_hashed(raw, salt),
            PasswordAlgo::Scrypt => scrypt_hashed(raw, salt),
        }
    }

    /// What this algorithm's backend makes of `candidate` against the encoded
    /// hash `phc`.
    pub open spec fn verdict(self, phc: Seq<char>, candidate: Seq<char>) -> Verdict {
        match self {
            PasswordAlgo::Argon2 => argon2_verdict(phc, candidate),
            PasswordAlgo::Scrypt => scrypt_verdict(phc, candidate),
        }
    }

    /// What [`PasswordAlgo::try_from`] returns for a parsed hash.
    pub open spec fn resolved(parsed: ParsedHashView) -> Result<PasswordAlgo, PasswordErrorView> {
        match PasswordAlgo::of_ident(parsed.algorithm) {
            Some(algo) => Ok(algo),
            None => Err(PasswordErrorView::InvalidPasswordAlgo { provided: parsed.algorithm }),
        }
    }

    /// What a result of [`PasswordAlgo::try_from`] holds, text by text.
    pub open spec fn resolved_view(r: Result<PasswordAlgo, PasswordError>) -> Result<
        PasswordAlgo,
        PasswordErrorView,
    > {
        match r {
            Ok(algo) => Ok(algo),
            Err(err) => Err(err@),
        }
    }

    /// The objection of this algorithm to `raw`: `MaximumPasswordLength`
    /// with the number of characters, where they are too many.
    pub open spec fn objection(self, raw: Seq<char>) -> Option<PasswordErrorView> {
        if trimmed(raw).len() > self.max_length_spec() {
            Some(PasswordErrorView::MaximumPasswordLength { provided: trimmed(raw).len() })
        } else {
            None
        }
    }

    /// Finds the algorithm that the identifier of `value` names. An
    /// identifier that names none fails with `InvalidPasswordAlgo`, which
    /// carries the identifier.
    pub fn try_from(value: &ParsedHash) -> (r: Result<Self, PasswordError>)
        ensures
            PasswordAlgo::resolved_view(r) == PasswordAlgo::resolved(value@),
    {
        let ident = value.algorithm().to_string();
        if ident == "argon2d".to_string() || ident == "argon2i".to_string() || ident
            == "argon2id".to_string() {
            return Ok(PasswordAlgo::Argon2);
        }
        if ident == "scrypt".to_string() {
            return Ok(PasswordAlgo::Scrypt);
        }
        Err(PasswordError::InvalidPasswordAlgo { provided: ident })
    }

    fn max_length(&self) -> (n: usize)
        ensures
            n == self.max_length_spec(),
    {
        match self {
            PasswordAlgo::Argon2 => ARGON2_MAXIMUM_PASSWORD_LENGTH,
            PasswordAlgo::Scrypt => SCRYPT_MAXIMUM_PASSWORD_LENGTH,
        }
    }
}

/// Each algorithm is a policy of its own: it objects to a raw password with
/// more characters than it takes, the white space at both ends not counted.
impl PasswordIsSafe for PasswordAlgo {
    fn is_safe(&self, raw: &str) -> (r: ResultPwd<()>)
        ensures
            error_of(r) == self.objection(raw@),
    {
        let provided = trimmed_char_count(raw);
        if provided > self.max_length() {
            Err(PasswordError::MaximumPasswordLength { provided })
        } else {
            Ok(())
        }
    }
}

/// The leave to hash a raw password that no policy has seen. The functions
/// that skip the policy take one, so that each such call shows in the source.
pub struct PolicyWaiver;

/// A password as it is stored: the encoded hash and its algorithm.
#[derive(Eq, Ord, PartialOrd, Hash)]
pub struct Password {
    phc: String,
    algo: PasswordAlgo,
}

/// What a [`Password`] holds: the encoded hash as a sequence of characters,
/// and the algorithm.
pub struct PasswordView {
    pub encoded: Seq<char>,
    pub algo: PasswordAlgo,
}

impl PasswordView {
    /// Whether the algorithm agrees with the encoded hash: the hash is a
    /// well-formed line that reads back as itself, and its identifier names
    /// the algorithm.
    pub open spec fn wf(self) -> bool {
        &&& phc_decoded(self.encoded) matches Ok(parsed)
        &&& parsed.encoded == self.encoded
        &&& PasswordAlgo::of_ident(parsed.algorithm) == Some(self.algo)
    }

    /// Whether `candidate` is accepted as the password that was hashed.
    pub open spec fn accepts(self, candidate: Seq<char>) -> bool {
        self.algo.verdict(self.encoded, candidate) == Verdict::Match
    }
}

impl View for Password {
    type V = PasswordView;

    closed spec fn view(&self) -> PasswordView {
        PasswordView { encoded: self.phc@, algo: self.algo }
    }
}

impl Clone for Password {
    fn clone(&self) -> (r: Self)
        ensures
            r == *self,
    {
        proof {
            use_type_invariant(self);
        }
        Password { phc: self.phc.clone(), algo: self.algo }
    }
}

impl Password {
    /// The invariant of the type: the algorithm agrees with the encoded
    /// hash, which is canonical.
    #[verifier::type_invariant]
    pub open spec fn wf(&self) -> bool {
        self@.wf()
    }

    /// What a result that may hold a password holds, text by text.
    pub open spec fn result_view(r: Result<Password, PasswordError>) -> Result<
        PasswordView,
        PasswordErrorView,
    > {
        match r {
            Ok(password) => Ok(password@),
            Err(err) => Err(err@),
        }
    }

    /// What [`Password::from_parsed`] returns: the line of `parsed` under
    /// the algorithm that its identifier names, or the error of an
    /// identifier that names none.
    pub open spec fn from_parsed_spec(parsed: ParsedHashView) -> Result<
        PasswordView,
        PasswordErrorView,
    > {
        match PasswordAlgo::resolved(parsed) {
            Err(err) => Err(err),
            Ok(algo) => Ok(PasswordView { encoded: parsed.encoded, algo }),
        }
    }

    /// What [`Password::new`] returns for the stored line `phc`.
    pub open spec fn loaded(phc: Seq<char>) -> Result<PasswordView, PasswordErrorView> {
        match decode_spec(phc) {
            Err(err) => Err(err),
            Ok(parsed) => Password::from_parsed_spec(parsed),
        }
    }

    /// What [`Password::from_hashed`] returns: the error of the backend as
    /// `HashError`, or else the hash under `algo`, provided that its
    /// identifier names `algo`.
    pub open spec fn from_hashed_spec(
        hashed: Result<ParsedHashView, password_hash::Error>,
        algo: PasswordAlgo,
    ) -> Result<PasswordView, PasswordErrorView> {
        match hashed {
            Err(cause) => Err(PasswordErrorView::HashError(cause)),
            Ok(hash) => if PasswordAlgo::of_ident(hash.algorithm) == Some(algo) {
                Ok(PasswordView { encoded: hash.encoded, algo })
            } else {
                Err(PasswordErrorView::InvalidPasswordAlgo { provided: hash.algorithm })
            },
        }
    }

    /// What hashing `raw` under `algo` comes to when the salt is `salt`: the
    /// objection of the algorithm to the length of `raw`, or else what the
    /// backend gives.
    pub open spec fn hashed_with(algo: PasswordAlgo, raw: Seq<char>, salt: Seq<char>) -> Result<
        PasswordView,
        PasswordErrorView,
    > {
        match algo.objection(raw) {
            Some(err) => Err(err),
            None => Password::from_hashed_spec(algo.hashed(raw, salt), algo),
        }
    }

    /// Whether hashing `raw` under `algo` is owed a password: the algorithm
    /// does not object to the length of `raw`, and its backend takes the
    /// bytes of `raw`.
    pub open spec fn is_owed(algo: PasswordAlgo, raw: &str) -> bool {
        algo.objection(raw@) is None && algo.takes(raw.spec_bytes().len())
    }

    /// Whether `r` is what hashing `raw` under `algo` comes to with a salt
    /// of the recommended size: `r` is what [`Password::hashed_with`] gives
    /// for some such salt; `r` is a password where one is owed; and a
    /// password that came out is well formed and accepts `raw`.
    pub open spec fn is_hashed(
        r: Result<PasswordView, PasswordErrorView>,
        algo: PasswordAlgo,
        raw: &str,
    ) -> bool {
        &&& exists|salt: Seq<char>|
            is_salt(salt) && r == #[trigger] Password::hashed_with(algo, raw@, salt)
        &&& Password::is_owed(algo, raw) ==> r is Ok
        &&& r matches Ok(password) ==> password.wf() && password.accepts(raw@)
    }

    /// Whether `r` is what hashing `raw` under `algo` comes to once the
    /// policy has spoken: its objection, or else what hashing comes to.
    pub open spec fn is_hashed_after(
        r: Result<PasswordView, PasswordErrorView>,
        objection: Option<PasswordErrorView>,
        algo: PasswordAlgo,
        raw: &str,
    ) -> bool {
        match objection {
            Some(err) => r == Err::<PasswordView, PasswordErrorView>(err),
            None => Password::is_hashed(r, algo, raw),
        }
    }

    /// Whether `r` is what hashing `raw` under `algo` comes to when the
    /// policy `check` is asked first: for some answer that `check` may give
    /// on `raw`, `r` is that answer's objection or else what hashing comes
    /// to.
    pub open spec fn is_checked_hashed<C: PasswordIsSafe>(
        r: Result<PasswordView, PasswordErrorView>,
        check: C,
        algo: PasswordAlgo,
        raw: &str,
    ) -> bool {
        exists|answer: ResultPwd<()>| #[trigger]
            call_ensures(C::is_safe, (&check, raw), answer) && Password::is_hashed_after(
                r,
                error_of(answer),
                algo,
                raw,
            )
    }

    fn _new(hash: ParsedHash, algo: PasswordAlgo) -> (r: Self)
        requires
            PasswordAlgo::of_ident(hash@.algorithm) == Some(algo),
        ensures
            r@.encoded == hash@.encoded,
            r@.algo == algo,
            r.wf(),
    {
        Password { phc: hash.into_encoded(), algo }
    }

    /// Loads a password from the line `phc` that storage holds.
    ///
    /// Fails with `MalformedHash` where the line is not well formed, and
    /// with `InvalidPasswordAlgo` where its identifier names no supported
    /// algorithm. Else the password holds the line in its canonical form:
    /// every line that a backend of the library wrote loads as it is.
    pub fn new(phc: &str) -> (r: ResultPwd<Self>)
        ensures
            Password::result_view(r) == Password::loaded(phc@),
            r matches Ok(password) ==> password.wf(),
    {
        match decode(phc) {
            Err(err) => Err(err),
            Ok(parsed) => Password::from_parsed(parsed),
        }
    }

    /// Makes the password that the parsed hash `parsed` stands for.
    ///
    /// Fails with `InvalidPasswordAlgo` where the identifier names no
    /// supported algorithm. Else the password holds the line of `parsed`
    /// under the algorithm that the identifier names.
    pub fn from_parsed(parsed: ParsedHash) -> (r: ResultPwd<Self>)
        ensures
            Password::result_view(r) == Password::from_parsed_spec(parsed@),
            r matches Ok(password) ==> password.wf(),
    {
        match PasswordAlgo::try_from(&parsed) {
            Ok(algo) => Ok(Password::_new(parsed, algo)),
            Err(err) => Err(err),
        }
    }

    /// Makes the password that the result `hashed` of the backend of `algo`
    /// stands for.
    ///
    /// Fails with `HashError`, and the backend's error, where the backend
    /// failed, and with `InvalidPasswordAlgo` where the identifier of the
    /// hash does not name `algo`. Else the password holds the line of the
    /// hash under `algo`.
    pub fn from_hashed(hashed: Result<ParsedHash, password_hash::Error>, algo: PasswordAlgo) -> (r:
        ResultPwd<Self>)
        ensures
            Password::result_view(r) == Password::from_hashed_spec(parsed_view(hashed), algo),
            r matches Ok(password) ==> password.wf(),
    {
        let hash = match hashed {
            Ok(hash) => hash,
            Err(cause) => return Err(PasswordError::HashError(cause)),
        };
        match PasswordAlgo::try_from(&hash) {
            Ok(named) => {
                if named == algo {
                    Ok(Password::_new(hash, algo))
                } else {
                    Err(PasswordError::InvalidPasswordAlgo { provided: hash.algorithm().to_string() })
                }
            },
            Err(err) => Err(err),
        }
    }

    /// Hashes `raw` with the default algorithm, Argon2, once `check` has
    /// accepted it.
    ///
    /// Fails with the objection of `check` where it has one; else as
    /// [`Password::hash_unsafe`] does. A password that comes out accepts
    /// `raw`.
    pub fn hash_check<C: PasswordIsSafe>(raw: &str, check: C) -> (r: ResultPwd<Self>)
        ensures
            Password::is_checked_hashed(Password::result_view(r), check, PasswordAlgo::Argon2, raw),
            r matches Ok(password) ==> password.wf() && password@.accepts(raw@),
    {
        Password::hash_argon(raw, check)
    }

    /// Hashes `raw` with the default algorithm, Argon2, whatever `raw` is:
    /// empty, short or known to attackers. Meant for tests and for moving
    /// old accounts over; elsewhere use [`Password::hash_check`].
    ///
    /// Fails with `MaximumPasswordLength` where `raw` has more characters
    /// than Argon2 takes, and with `HashError` where the backend fails,
    /// which it does not where it takes the bytes of `raw`. A password that
    /// comes out accepts `raw`.
    pub fn hash_unsafe(raw: &str, waiver: PolicyWaiver) -> (r: ResultPwd<Self>)
        ensures
            Password::is_hashed(Password::result_view(r), PasswordAlgo::Argon2, raw),
            r matches Ok(password) ==> password.wf() && password@.accepts(raw@),
    {
        Password::hash_argon_unsafe(raw, waiver)
    }

    /// Hashes `raw` with Argon2, once `check` has accepted it.
    ///
    /// Fails with the objection of `check` where it has one; else as
    /// [`Password::hash_argon_unsafe`] does. A password that comes out
    /// accepts `raw`.
    pub fn hash_argon<C: PasswordIsSafe>(raw: &str, check: C) -> (r: ResultPwd<Self>)
        ensures
            Password::is_checked_hashed(Password::result_view(r), check, PasswordAlgo::Argon2, raw),
            r matches Ok(password) ==> password.wf() && password@.accepts(raw@),
    {
        let answer = check.is_safe(raw);
        match answer {
            Ok(()) => {},
            Err(err) => return Err(err),
        }
        Password::hash_argon_unsafe(raw, PolicyWaiver)
    }

    /// Hashes `raw` with Argon2 and a fresh salt, whatever `raw` is.
    ///
    /// Fails with `MaximumPasswordLength` where `raw` has more characters
    /// than Argon2 takes, and with `HashError` where the backend fails,
    /// which it does not where it takes the bytes of `raw`. A password that
    /// comes out accepts `raw`.
    pub fn hash_argon_unsafe(raw: &str, waiver: PolicyWaiver) -> (r: ResultPwd<Self>)
        ensures
            Password::is_hashed(Password::result_view(r), PasswordAlgo::Argon2, raw),
            r matches Ok(password) ==> password.wf() && password@.accepts(raw@),
    {
        let salt = Password::salt();
        Password::hash_with_salt(raw, salt.as_str(), PasswordAlgo::Argon2, waiver)
    }

    /// Hashes `raw` with scrypt, once `check` has accepted it.
    ///
    /// Fails with the objection of `check` where it has one; else as
    /// [`Password::hash_scrypt_unsafe`] does. A password that comes out
    /// accepts `raw`.
    pub fn hash_scrypt<C: PasswordIsSafe>(raw: &str, check: C) -> (r: ResultPwd<Self>)
        ensures
            Password::is_checked_hashed(Password::result_view(r), check, PasswordAlgo::Scrypt, raw),
            r matches Ok(password) ==> password.wf() && password@.accepts(raw@),
    {
        let answer = check.is_safe(raw);
        match answer {
            Ok(()) => {},
            Err(err) => return Err(err),
        }
        Password::hash_scrypt_unsafe(raw, PolicyWaiver)
    }

    /// Hashes `raw` with scrypt and a fresh salt, whatever `raw` is.
    ///
    /// Fails with `MaximumPasswordLength` where `raw` has more characters
    /// than scrypt is given; else it gives a password, which accepts `raw`.
    pub fn hash_scrypt_unsafe(raw: &str, waiver: PolicyWaiver) -> (r: ResultPwd<Self>)
        ensures
            Password::is_hashed(Password::result_view(r), PasswordAlgo::Scrypt, raw),
            r matches Ok(password) ==> password.wf() && password@.accepts(raw@),
    {
        let salt = Password::salt();
        Password::hash_with_salt(raw, salt.as_str(), PasswordAlgo::Scrypt, waiver)
    }

    /// Hashes `raw` under `algo` with the salt `salt`, whatever `raw` is.
    /// The same raw password and salt give the same password.
    ///
    /// Fails with `MaximumPasswordLength` where `raw` has more characters
    /// than the algorithm takes, before the backend is asked; and with
    /// `HashError` where the backend fails, which it does not where `salt`
    /// is of the recommended size and the backend takes the bytes of `raw`.
    /// A password that comes out accepts `raw`.
    pub fn hash_with_salt(raw: &str, salt: &str, algo: PasswordAlgo, _waiver: PolicyWaiver) -> (r:
        ResultPwd<Self>)
        ensures
            Password::result_view(r) == Password::hashed_with(algo, raw@, salt@),
            r matches Ok(password) ==> password.wf() && password@.accepts(raw@),
            is_salt(salt@) && Password::is_owed(algo, raw) ==> r is Ok,
    {
        match algo.is_safe(raw) {
            Ok(()) => {},
            Err(err) => return Err(err),
        }
        let hashed = match algo {
            PasswordAlgo::Argon2 => hash_argon2::hash_password(raw, salt),
            PasswordAlgo::Scrypt => hash_scrypt::hash_password(raw, salt),
        };
        proof {
            lemma_idents_differ();
        }
        Password::from_hashed(hashed, algo)
    }

    /// Takes the stored hash apart again. The line of the result is the one
    /// that the password holds, and its identifier names the password's
    /// algorithm.
    pub fn get_hash(&self) -> (r: ParsedHash)
        ensures
            r@.encoded == self@.encoded,
            PasswordAlgo::of_ident(r@.algorithm) == Some(self@.algo),
    {
        proof {
            use_type_invariant(self);
        }
        match decode(self.phc.as_str()) {
            Ok(parsed) => parsed,
            Err(_) => unreached(),
        }
    }

    /// Checks the raw string `against` against the stored hash, with the
    /// backend of the password's own algorithm.
    ///
    /// Succeeds exactly when the backend finds a match. Fails with
    /// `InvalidPassword` on a mismatch and with `HashError` where the check
    /// could not be made.
    pub fn validate_password(&self, against: &str) -> (r: Result<(), PasswordError>)
        ensures
            error_of(r) == self@.algo.verdict(self@.encoded, against@).error(),
            r is Ok <==> self@.accepts(against@),
    {
        let verdict = match self.algo {
            PasswordAlgo::Argon2 => hash_argon2::validate_password(self.phc.as_str(), against),
            PasswordAlgo::Scrypt => hash_scrypt::validate_password(self.phc.as_str(), against),
        };
        verdict.into_result()
    }

    /// A fresh salt for hashing, as text: what `SaltString::generate` of the
    /// `password_hash` crate draws from the system's random numbers.
    ///
    /// Not proved, but taken from that crate: the salt is 16 bytes written
    /// in base 64 without padding. Which bytes they are is not stated: each
    /// call gives others.
    #[verifier::external_body]
    pub fn salt() -> (s: String)
        ensures
            is_salt(s@),
    {
        SaltString::generate(&mut OsRng).as_str().to_string()
    }

    /// The encoded hash: the line to keep in storage.
    pub fn phc(&self) -> (s: &str)
        ensures
            s@ == self@.encoded,
    {
        self.phc.as_str()
    }

    /// The algorithm that made the hash.
    pub fn algo(&self) -> (a: PasswordAlgo)
        ensures
            a == self@.algo,
    {
        self.algo
    }

    /// The text to show in place of the password. It is the same for every
    /// password and tells nothing of the hash.
    pub fn to_string(&self) -> (s: String)
        ensures
            s@ == REDACTED@,
    {
        REDACTED.to_string()
    }
}

impl FromStr for Password {
    type Err = PasswordError;

    /// Loads a password as [`Password::new`] does.
    fn from_str(phc: &str) -> (r: Result<Self, PasswordError>)
        ensures
            Password::result_view(r) == Password::loaded(phc@),
    {
        Password::new(phc)
    }
}

/// Two passwords are equal when they hold the same encoded hash under the
/// same algorithm. This compares what is stored; it checks no raw password.
impl PartialEq for Password {
    fn eq(&self, other: &Password) -> (r: bool) {
        self.phc == other.phc && self.algo == other.algo
    }
}

impl PartialEqSpecImpl for Password {
    open spec fn obeys_eq_spec() -> bool {
        true
    }

    open spec fn eq_spec(&self, other: &Password) -> bool {
        self@.encoded == other@.encoded && self@.algo == other@.algo
    }
}

/// A password equals a raw string when the string is accepted: the
/// comparison is a full check, as [`Password::validate_password`] makes it.
impl<'a> PartialEq<&'a str> for Password {
    fn eq(&self, other: &&'a str) -> (r: bool) {
        self.validate_password(*other).is_ok()
    }
}

impl<'a> PartialEqSpecImpl<&'a str> for Password {
    open spec fn obeys_eq_spec() -> bool {
        true
    }

    open spec fn eq_spec(&self, other: &&'a str) -> bool {
        self@.accepts((*other)@)
    }
}

/// The identifier of scrypt is none of Argon2's.
proof fn lemma_idents_differ()
    ensures
        PasswordAlgo::of_ident("argon2d"@) == Some(PasswordAlgo::Argon2),
        PasswordAlgo::of_ident("argon2i"@) == Some(PasswordAlgo::Argon2),
        PasswordAlgo::of_ident("argon2id"@) == Some(PasswordAlgo::Argon2),
        PasswordAlgo::of_ident("scrypt"@) == Some(PasswordAlgo::Scrypt),
{
    reveal_strlit("argon2d");
    reveal_strlit("argon2i");
    reveal_strlit("argon2id");
    reveal_strlit("scrypt");
    assert("scrypt"@.len() == 6);
    assert("argon2d"@.len() == 7);
    assert("argon2i"@.len() == 7);
    assert("argon2id"@.len() == 8);
}

/// A password that is loaded again from its own encoded hash is the same
/// password.
pub proof fn lemma_reload_is_identity(password: PasswordView)
    requires
        password.wf(),
    ensures
        Password::loaded(password.encoded) == Ok::<PasswordView, PasswordErrorView>(password),
{
}

/// A hash of the legacy algorithm still decides the same way after it was
/// loaded from storage: the loaded password is under scrypt again and holds
/// the same hash, so it accepts exactly the candidates that the first one
/// accepts, and among them the raw password that it was hashed from.
pub proof fn lemma_legacy_hash_verifies_after_reload(password: PasswordView, candidate: Seq<char>)
    requires
        password.wf(),
        password.algo == PasswordAlgo::Scrypt,
    ensures
        Password::loaded(password.encoded) matches Ok(loaded) && loaded.algo
            == PasswordAlgo::Scrypt && (loaded.accepts(candidate) <==> password.accepts(candidate)),
{
    lemma_reload_is_identity(password);
}

/// A password that was hashed from a raw password accepts that raw
/// password, whatever the policy and the algorithm were; and where the
/// policy accepted the raw password and the algorithm owes a password,
/// hashing gave one.
pub proof fn lemma_hashed_password_accepts_raw<C: PasswordIsSafe>(
    r: Result<PasswordView, PasswordErrorView>,
    check: C,
    algo: PasswordAlgo,
    raw: &str,
)
    requires
        Password::is_checked_hashed(r, check, algo, raw),
    ensures
        r matches Ok(password) ==> password.wf() && password.accepts(raw@) && password.algo == algo,
        (forall|answer: ResultPwd<()>| #[trigger]
            call_ensures(C::is_safe, (&check, raw), answer) ==> answer is Ok) && Password::is_owed(
            algo,
            raw,
        ) ==> r is Ok,
{
}

/// Under the policy of the minimum size, hashing fails for every raw
/// password of fewer than [`MINIMUM_PASSWORD_LENGTH`] characters, with
/// `MinimumPasswordLength` and their number; for no other raw password does
/// it fail with that error; and a raw password of at least that many
/// characters gives a password wherever the algorithm owes one.
pub proof fn lemma_minimum_size_gate(
    r: Result<PasswordView, PasswordErrorView>,
    algo: PasswordAlgo,
    raw: &str,
)
    requires
        Password::is_checked_hashed(r, CHECKER_MIN_SIZE, algo, raw),
    ensures
        trimmed(raw@).len() < MINIMUM_PASSWORD_LENGTH ==> r == Err::<
            PasswordView,
            PasswordErrorView,
        >(PasswordErrorView::MinimumPasswordLength { provided: trimmed(raw@).len() }),
        trimmed(raw@).len() >= MINIMUM_PASSWORD_LENGTH ==> !(r matches Err(
            PasswordErrorView::MinimumPasswordLength { .. },
        )),
        trimmed(raw@).len() >= MINIMUM_PASSWORD_LENGTH && Password::is_owed(algo, raw) ==> r is Ok,
{
}

} // verus!
