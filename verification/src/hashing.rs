//! The credential hasher: a salted, iterated one-way transform of a
//! plaintext secret into a storable digest, built on the SHA-512 crypt
//! scheme of the `sha_crypt` crate.
//!
//! Each call draws a fresh random salt, so two digests of one plaintext
//! differ, yet every digest the hasher hands out verifies against the
//! plaintext it was made from. A failure to set the scheme up is surfaced
//! as an error value, never as a crash.

use vstd::prelude::*;

verus! {

/// The iteration count every digest is made with.
pub const HASH_ROUNDS: usize = 10_000;

/// The hashing subsystem could not be set up; a configuration fault,
/// not a per-request one.
#[derive(Debug, Clone, Copy, PartialEq, Eq, Structural)]
pub enum HashingError {
    Unavailable,
}

/// Whether `digest` is a well-formed SHA-512 crypt digest of `plain`:
/// what the scheme's check function accepts. The check is a pure
/// function of the two strings; its definition is the scheme itself
/// and is left to the outside implementation.
pub uninterp spec fn sha512_matches(plain: Seq<char>, digest: Seq<char>) -> bool;

/// Relies on sha_crypt::sha512_check: parses `digest`, recomputes the
/// SHA-512 crypt hash of `plain` with the salt and rounds found there,
/// and compares. Deterministic in its two arguments.
#[verifier::external_body]
fn sha512_verify(plain: &str, digest: &str) -> (r: bool)
    ensures
        r == sha512_matches(plain@, digest@),
{
    sha_crypt::sha512_check(plain, digest).is_ok()
}

/// Whether `digest` is a well-formed digest of `plain` under the SHA-512
/// crypt scheme: the check function every stored digest verifies under.
pub fn check_password(plain: &str, digest: &str) -> (r: bool)
    ensures
        r == sha512_matches(plain@, digest@),
{
    sha512_verify(plain, digest)
}

/// Relies on sha_crypt::Sha512Params::new and sha_crypt::sha512_simple:
/// whenever a digest comes back it is `$6$` followed by a fresh random
/// salt, `$`, and the encoded hash, which sha_crypt::sha512_check
/// accepts for `plain`.
#[verifier::external_body]
fn sha512_hash(plain: &str, rounds: usize) -> (r: Option<String>)
    ensures
        r matches Some(d) ==> sha512_matches(plain@, d@),
        r matches Some(d) ==> d@.len() >= 3 && d@[0] == '$' && d@[1] == '6' && d@[2] == '$',
{
    let params = match sha_crypt::Sha512Params::new(rounds) {
        Ok(p) => p,
        Err(_) => return None,
    };
    match sha_crypt::sha512_simple(plain, &params) {
        Ok(d) => Some(d),
        Err(_) => None,
    }
}

/// Hashes one plaintext secret into a storable digest, salted with fresh
/// randomness. The digest verifies against the plaintext; nothing more is
/// promised of it, and in particular two calls on one plaintext need not
/// agree.
pub fn hash_password_string(plain: &str) -> (r: Result<String, HashingError>)
    ensures
        r matches Ok(d) ==> sha512_matches(plain@, d@),
        r matches Ok(d) ==> d@.len() >= 3 && d@[0] == '$' && d@[1] == '6' && d@[2] == '$',
{
    match sha512_hash(plain, HASH_ROUNDS) {
        Some(d) => Ok(d),
        None => Err(HashingError::Unavailable),
    }
}

} // verus!
