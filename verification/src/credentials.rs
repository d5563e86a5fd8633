//! The password hashing primitive.  Passwords are never stored in clear
//! form: signup hashes them with a salted, computationally hard function,
//! and login compares the presented password against the stored digest.

use vstd::prelude::*;

use crate::return_types::KnownErrors;

verus! {

/// Whether `password` matches the salted digest `digest`.  The digest
/// embeds its own salt and cost, so this is a function of the two
/// arguments alone; its definition is bcrypt's and is not restated here.
pub uninterp spec fn bcrypt_matches(password: Seq<char>, digest: Seq<char>) -> bool;

/// Whether `digest` is a well-formed bcrypt digest: one that parses back
/// into its version, cost and salt, with the cost in the allowed range.
/// A function of the digest alone; verification fails exactly on a
/// digest that is not well-formed.
pub uninterp spec fn bcrypt_digest_parses(digest: Seq<char>) -> bool;

/// Relies on bcrypt::hash with bcrypt::DEFAULT_COST: the digest it
/// returns is in the canonical well-formed format and verifies against
/// the hashed password (bcrypt::verify re-parses the digest's own salt
/// and cost, recomputes the hash and compares).  It fails only when the
/// operating system's randomness source does while drawing the salt,
/// which this crate surfaces as a storage-class error.
#[verifier::external_body]
pub fn hash_password(password: &String) -> (r: Result<String, KnownErrors>)
    ensures
        r matches Ok(digest) ==> bcrypt_matches(password@, digest@) && bcrypt_digest_parses(
            digest@,
        ),
        r matches Err(e) ==> e is Storage,
{
    match bcrypt::hash(password.as_str(), bcrypt::DEFAULT_COST) {
        Ok(digest) => Ok(digest),
        Err(_) => Err(KnownErrors::Storage),
    }
}

/// Relies on bcrypt::verify: deterministic in the password and digest,
/// since the digest embeds the salt and cost it was produced with.  It
/// fails exactly when the digest is not a well-formed bcrypt digest
/// (it does not parse, or its cost is out of range), which this crate
/// surfaces as a storage-class error.
#[verifier::external_body]
pub fn verify_password(password: &String, digest: &String) -> (r: Result<bool, KnownErrors>)
    ensures
        r matches Ok(b) ==> b == bcrypt_matches(password@, digest@),
        r is Err <==> !bcrypt_digest_parses(digest@),
        r matches Err(e) ==> e is Storage,
{
    match bcrypt::verify(password.as_str(), digest.as_str()) {
        Ok(b) => Ok(b),
        Err(_) => Err(KnownErrors::Storage),
    }
}

} // verus!
