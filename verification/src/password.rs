//! Passwords: hashed before they are stored, and checked against the stored
//! hash at login. The hash is `bcrypt`'s.

use vstd::prelude::*;

verus! {

/// `bcrypt::BcryptError`: why hashing or checking failed; carried and never
/// read.
#[verifier::external_type_specification]
#[verifier::external_body]
pub struct ExBcryptError(bcrypt::BcryptError);

/// The lowest cost factor that the hash takes.
pub const MIN_COST: u32 = 4;

/// The highest cost factor that the hash takes.
pub const MAX_COST: u32 = 31;

/// What `bcrypt::verify` answers for a password and a stored hash; none where
/// it reports an error, as it does for a text that is no bcrypt hash.
pub uninterp spec fn bcrypt_verdict(password: Seq<char>, hash: Seq<char>) -> Option<bool>;

/// `bcrypt::hash`: a salted hash of the password. A cost outside 4 to 31 is
/// refused. The salt is random, so the text is not fixed by the arguments;
/// whatever it is, it names its salt and cost, and `bcrypt::verify` hashes the
/// password again under them and compares, so it answers yes for the password
/// that was hashed.
#[verifier::external_body]
fn bcrypt_hash(password: &str, cost: u32) -> (hash: Result<String, bcrypt::BcryptError>)
    ensures
        !(MIN_COST <= cost <= MAX_COST) ==> hash is Err,
        hash matches Ok(text) ==> bcrypt_verdict(password@, text@) == Some(true),
{
    bcrypt::hash(password, cost)
}

/// `bcrypt::verify`: whether the password gives the stored hash under the
/// salt and cost that the hash names.
#[verifier::external_body]
fn bcrypt_verify(password: &str, hash: &str) -> (verdict: Result<bool, bcrypt::BcryptError>)
    ensures
        match verdict {
            Ok(same) => bcrypt_verdict(password@, hash@) == Some(same),
            Err(_) => bcrypt_verdict(password@, hash@) is None,
        },
{
    bcrypt::verify(password, hash)
}

/// A password is accepted only where the check succeeds and finds a match: a
/// mismatch and a hash that cannot be read both count as not authenticated.
pub open spec fn accepts(password: Seq<char>, hash: Seq<char>) -> bool {
    bcrypt_verdict(password, hash) == Some(true)
}

/// What a check of the password against the hash gives, for each answer of
/// the hash function.
pub open spec fn verdict_accepts(verdict: Option<bool>) -> bool {
    verdict == Some(true)
}

/// Whether a finished check authenticates: only a match does.
pub fn authenticated(verdict: Option<bool>) -> (ok: bool)
    ensures
        ok == verdict_accepts(verdict),
{
    match verdict {
        Some(same) => same,
        None => false,
    }
}

/// Whether `password` is the one that `hash` was made from.
pub fn verify_password(password: &str, hash: &str) -> (ok: bool)
    ensures
        ok == accepts(password@, hash@),
{
    match bcrypt_verify(password, hash) {
        Ok(same) => authenticated(Some(same)),
        Err(_) => authenticated(None),
    }
}

/// A salted hash of `password` at the given cost; none where hashing fails,
/// as it does for every cost outside 4 to 31. A hash that comes back is one
/// that the password is accepted against.
pub fn hash_password(password: &str, cost: u32) -> (hash: Option<String>)
    ensures
        !(MIN_COST <= cost <= MAX_COST) ==> hash is None,
        hash matches Some(text) ==> accepts(password@, text@),
{
    match bcrypt_hash(password, cost) {
        Ok(hash) => Some(hash),
        Err(_) => None,
    }
}

} // verus!
