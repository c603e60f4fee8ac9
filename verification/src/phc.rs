//! The stored form of a password hash: one line of text that names the
//! algorithm and carries its version, its cost parameters, the salt and the
//! digest, each after a `$`:
//!
//! ```text
//! $<id>[$v=<version>][$<param>=<value>(,<param>=<value>)*][$<salt>[$<hash>]]
//! ```
//!
//! Reading and writing that line is left to the `password_hash` crate. What
//! this module adds is the plain value that the rest of the library works
//! on: a [`ParsedHash`], which the decoder and the backends hand out.

use crate::errors::PasswordError;
use crate::errors::PasswordErrorView;
use password_hash::PasswordHash;
use vstd::prelude::*;

verus! {

/// A hash as the decoder or a backend hands it out: the identifier of its
/// algorithm, and the whole line written out from its parts.
///
/// The line of a parsed hash is canonical: read again, it gives the same
/// identifier and the same line. Only the decoder and the backends make
/// values of this type.
#[derive(Debug, PartialEq, Eq)]
pub struct ParsedHash {
    pub(crate) algorithm: String,
    pub(crate) encoded: String,
}

/// A [`ParsedHash`] with its texts as sequences of characters.
pub struct ParsedHashView {
    pub algorithm: Seq<char>,
    pub encoded: Seq<char>,
}

/// What `password_hash::PasswordHash::new` makes of the line `phc`: the
/// identifier that it found and the line that `to_string` gives for the
/// parsed hash, or the reason for which it refused the line.
pub uninterp spec fn phc_decoded(phc: Seq<char>) -> Result<ParsedHashView, password_hash::Error>;

/// Whether `encoded` is a well-formed line that names the algorithm
/// `algorithm` and reads back as itself.
pub open spec fn reads_back_as(encoded: Seq<char>, algorithm: Seq<char>) -> bool {
    phc_decoded(encoded) == Ok::<ParsedHashView, password_hash::Error>(
        ParsedHashView { algorithm, encoded },
    )
}

/// Whether `c` is one of the 64 characters that encode bytes in a line:
/// a letter, a digit, `+` or `/`.
pub open spec fn is_b64_char(c: char) -> bool {
    let n = c as u32;
    ||| 0x41 <= n <= 0x5A
    ||| 0x61 <= n <= 0x7A
    ||| 0x30 <= n <= 0x39
    ||| n == 0x2B
    ||| n == 0x2F
}

/// Whether `salt` is the text of a salt of the recommended size: 16 bytes
/// in base 64 without padding. These are 22 characters, of which the last
/// encodes two bits only and so is `A`, `Q`, `g` or `w`.
pub open spec fn is_salt(salt: Seq<char>) -> bool {
    &&& salt.len() == 22
    &&& forall|i: int| 0 <= i < 22 ==> is_b64_char(#[trigger] salt[i])
    &&& (salt[21] == 'A' || salt[21] == 'Q' || salt[21] == 'g' || salt[21] == 'w')
}

impl View for ParsedHash {
    type V = ParsedHashView;

    closed spec fn view(&self) -> ParsedHashView {
        ParsedHashView { algorithm: self.algorithm@, encoded: self.encoded@ }
    }
}

impl ParsedHash {
    /// The invariant of the type: the line reads back as this parsed hash.
    #[verifier::type_invariant]
    pub open spec fn wf(&self) -> bool {
        reads_back_as(self@.encoded, self@.algorithm)
    }

    /// The identifier of the algorithm: the first field of the line.
    pub fn algorithm(&self) -> (s: &str)
        ensures
            s@ == self@.algorithm,
    {
        self.algorithm.as_str()
    }

    /// The whole line.
    pub fn encoded(&self) -> (s: &str)
        ensures
            s@ == self@.encoded,
            reads_back_as(s@, self@.algorithm),
    {
        proof {
            use_type_invariant(self);
        }
        self.encoded.as_str()
    }

    /// Gives the line away.
    pub fn into_encoded(self) -> (s: String)
        ensures
            s@ == self@.encoded,
            reads_back_as(s@, self@.algorithm),
    {
        proof {
            use_type_invariant(&self);
        }
        self.encoded
    }
}

impl Clone for ParsedHash {
    fn clone(&self) -> (r: Self)
        ensures
            r@ == self@,
    {
        proof {
            use_type_invariant(self);
        }
        ParsedHash { algorithm: self.algorithm.clone(), encoded: self.encoded.clone() }
    }
}

/// What [`decode`] returns for the line `phc`.
pub open spec fn decode_spec(phc: Seq<char>) -> Result<ParsedHashView, PasswordErrorView> {
    match phc_decoded(phc) {
        Ok(parsed) => Ok(parsed),
        Err(cause) => Err(PasswordErrorView::MalformedHash(cause)),
    }
}

/// What a result of [`decode`] holds, text by text.
pub open spec fn decoded_view(r: Result<ParsedHash, PasswordError>) -> Result<
    ParsedHashView,
    PasswordErrorView,
> {
    match r {
        Ok(parsed) => Ok(parsed@),
        Err(err) => Err(err@),
    }
}

/// What the result of a parser or of a backend holds, text by text.
pub open spec fn parsed_view(r: Result<ParsedHash, password_hash::Error>) -> Result<
    ParsedHashView,
    password_hash::Error,
> {
    match r {
        Ok(parsed) => Ok(parsed@),
        Err(cause) => Err(cause),
    }
}

/// Calls `password_hash::PasswordHash::new` on `phc` and, where that
/// succeeds, keeps the algorithm's identifier and the line that `to_string`
/// gives for the parsed hash.
///
/// Not proved, but taken from that crate: the result is a function of the
/// line alone, named [`phc_decoded`]; and the line that comes out reads back
/// as the same parsed hash, which is what the crate means by a hash that
/// makes the round trip through its text.
#[verifier::external_body]
fn parse(phc: &str) -> (r: Result<ParsedHash, password_hash::Error>)
    ensures
        parsed_view(r) == phc_decoded(phc@),
        r matches Ok(parsed) ==> parsed.wf(),
{
    let hash = PasswordHash::new(phc)?;
    Ok(ParsedHash { algorithm: hash.algorithm.as_str().to_string(), encoded: hash.to_string() })
}

/// Takes the stored line `phc` apart.
///
/// Fails with `MalformedHash`, and the parser's reason, exactly when the
/// line is not well formed.
pub fn decode(phc: &str) -> (r: Result<ParsedHash, PasswordError>)
    ensures
        decoded_view(r) == decode_spec(phc@),
{
    match parse(phc) {
        Ok(parsed) => Ok(parsed),
        Err(cause) => Err(PasswordError::MalformedHash(cause)),
    }
}

} // verus!
