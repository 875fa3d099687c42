//! Credential Manager: turns a plaintext password into a durable, verifiable
//! secret, and verifies a plaintext password against such a secret.
//!
//! The hash itself is computed by the argon2 crate; this module owns the salt
//! policy (a fresh random salt per credential) and the exact relationship
//! between deriving and verifying.

use crate::entropy::all_alnum;
use crate::entropy::random_alnum_string;
use crate::errors::AuthError;
use vstd::prelude::*;

verus! {

/// Length, in characters, of the random alphanumeric salt drawn for each new
/// credential. Salts must be unique per credential and unpredictable; 16
/// alphanumeric characters give well over the required entropy, and satisfy
/// argon2's minimum salt length of 8 bytes.
pub const SALT_LENGTH: usize = 16;

/// Upper bound, in characters, on passwords handed to the hash function.
/// argon2 rejects passwords over 2^32 - 1 bytes; a character encodes to at
/// most 4 bytes, so this cap keeps every admitted password hashable.
pub const PASSWORD_MAX_CHARS: usize = 0x3FFF_FFFF;

/// The encoded hash string that argon2's `hash_encoded` computes, with the
/// default configuration, from a password and a salt. The algorithm is not
/// restated here; the string is a pure function of the two arguments.
pub uninterp spec fn derived_hash(password: Seq<char>, salt: Seq<char>) -> Seq<char>;

/// The verdict of argon2's `verify_encoded` on an encoded hash string and a
/// password: `Some(b)` when the string parses as an encoded hash and the
/// re-derived hash compares equal (`b == true`) or unequal (`b == false`),
/// `None` when the string is malformed and verification errs.
pub uninterp spec fn hash_verdict(encoded: Seq<char>, password: Seq<char>) -> Option<bool>;

/// The error type of the argon2 crate, carried through the hashing wrappers.
#[verifier::external_type_specification]
#[verifier::external_body]
pub struct ExArgon2Error(argon2::Error);

/// Relies on `argon2::hash_encoded` with `argon2::Config::default()`.
///
/// The call validates its inputs and then computes: with the default
/// configuration every parameter check passes whenever the salt is at least 8
/// bytes and password and salt are under 2^32 bytes, which the preconditions
/// guarantee (a char is 1 to 4 UTF-8 bytes), so the call returns `Ok`. The
/// encoded result is a pure function of password and salt, and embeds the
/// salt and parameters so that `verify_encoded` re-derives the same hash from
/// the same password: the result verifies as a match against `password`.
#[verifier::external_body]
fn argon2_hash(password: &str, salt: &str) -> (r: Result<String, argon2::Error>)
    requires
        8 <= salt@.len() <= PASSWORD_MAX_CHARS,
        password@.len() <= PASSWORD_MAX_CHARS,
    ensures
        r is Ok,
        (r matches Ok(h) ==> h@ == derived_hash(password@, salt@)
            && hash_verdict(h@, password@) == Some(true)),
{
    argon2::hash_encoded(password.as_bytes(), salt.as_bytes(), &argon2::Config::default())
}

/// Relies on `argon2::verify_encoded`: a deterministic verdict computed from
/// the encoded string and the password alone (the encoded string carries the
/// salt and all parameters). It returns `Err` exactly when the encoded string
/// does not decode as a well-formed hash (or a decoded parameter is out of
/// range), which is what `hash_verdict == None` stands for.
#[verifier::external_body]
fn argon2_verify(encoded: &str, password: &str) -> (r: Result<bool, argon2::Error>)
    ensures
        (r matches Ok(b) ==> hash_verdict(encoded@, password@) == Some(b)),
        r is Ok <==> hash_verdict(encoded@, password@) is Some,
{
    argon2::verify_encoded(encoded, password.as_bytes())
}

/// A durable credential: the argon2-encoded hash of a password together with
/// the salt it was derived with. The plaintext password never appears in it.
#[derive(Debug)]
pub struct StoredCredential {
    pub encoded_hash: String,
    pub salt: String,
}

impl StoredCredential {
    /// The credential is the hash of `password` under its own salt: exactly
    /// the credentials `derive_credential(password)` can return.
    pub open spec fn derived_from(self, password: Seq<char>) -> bool {
        &&& self.salt@.len() == SALT_LENGTH
        &&& all_alnum(self.salt@)
        &&& self.encoded_hash@ == derived_hash(password, self.salt@)
        &&& hash_verdict(self.encoded_hash@, password) == Some(true)
    }
}

/// Derives a stored credential from a plaintext password: draws a fresh
/// random 16-character alphanumeric salt and hashes the password under it.
///
/// The salt is random, so two calls with the same password are expected to
/// produce distinct credentials; nothing ties the result to earlier calls.
/// Hashing itself cannot fail on an admitted password.
pub fn derive_credential(password: &str) -> (r: StoredCredential)
    requires
        password@.len() <= PASSWORD_MAX_CHARS,
    ensures
        r.derived_from(password@),
{
    let salt = random_alnum_string(SALT_LENGTH);
    match argon2_hash(password, salt.as_str()) {
        Ok(encoded_hash) => StoredCredential { encoded_hash, salt },
        Err(_) => vstd::pervasive::unreached(),
    }
}

/// Verifies a plaintext password against a stored credential, re-deriving
/// the hash under the parameters and salt embedded in it and comparing in
/// constant time.
///
/// Returns `Ok(true)` on a match, `Ok(false)` on a mismatch (wrong password
/// is an ordinary outcome, not an error), and `Err(VerificationError)`
/// exactly when the stored hash string is malformed — a local integrity
/// fault, surfaced distinctly from "wrong password".
pub fn verify_credential(password: &str, credential: &StoredCredential) -> (r: Result<
    bool,
    AuthError,
>)
    ensures
        (r matches Ok(b) ==> hash_verdict(credential.encoded_hash@, password@) == Some(b)),
        r is Ok <==> hash_verdict(credential.encoded_hash@, password@) is Some,
        r is Err ==> r == Err::<bool, AuthError>(AuthError::VerificationError),
{
    match argon2_verify(credential.encoded_hash.as_str(), password) {
        Ok(b) => Ok(b),
        Err(_) => Err(AuthError::VerificationError),
    }
}

/// Law: for every password, verifying it against a credential freshly
/// derived from it succeeds — the body derives, then verifies, and is proved
/// to return `true` for every admitted password.
pub fn credential_round_trip(password: &str) -> (r: bool)
    requires
        password@.len() <= PASSWORD_MAX_CHARS,
    ensures
        r,
{
    let credential = derive_credential(password);
    match verify_credential(password, &credential) {
        Ok(b) => b,
        Err(_) => false,
    }
}

} // verus!
