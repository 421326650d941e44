//! One-way salted password hashing, through the bcrypt crate.
//!
//! The salt is drawn from OS randomness, so two hashes of one password
//! differ; nothing is assumed about the digest beyond what the crate's
//! source shows. Whether a password matches a digest is a deterministic
//! function of the two, named `digest_matches` and never written out.

use vstd::prelude::*;

verus! {

/// The cost factor handed to bcrypt; the crate accepts 4 through 31.
pub const HASH_COST: u32 = 12;

/// Names the result of `bcrypt::verify(password, digest)`, with a
/// verification error counted as a mismatch: true iff the digest was
/// produced from this password. Deterministic in its two arguments.
pub uninterp spec fn digest_matches(password: Seq<char>, digest: Seq<char>) -> bool;

/// True iff no character of `s` is a colon. Cache records join digest and
/// role with a colon, so this is what keeps them parseable.
pub open spec fn colon_free(s: Seq<char>) -> bool {
    forall|i: int| 0 <= i < s.len() ==> s[i] != ':'
}

/// Relies on bcrypt::hash: a fresh digest verifies against the password it
/// was made from (verify recomputes with the digest's own salt and cost),
/// and is 60 characters of `$`, digits and bcrypt base64 (`./A-Za-z0-9`),
/// so it never contains a colon. Fails only when the cost is out of range
/// or OS randomness is unavailable.
#[verifier::external_body]
pub(crate) fn hash_password(password: &str, cost: u32) -> (r: Option<String>)
    ensures
        r matches Some(d) ==> digest_matches(password@, d@) && colon_free(d@),
{
    bcrypt::hash(password, cost).ok()
}

/// Relies on bcrypt::verify: deterministic in password and digest; an error
/// (malformed digest) is treated as a mismatch, exactly as a wrong password
/// is, so the caller cannot tell the two apart.
#[verifier::external_body]
pub(crate) fn verify_password(password: &str, digest: &str) -> (r: bool)
    ensures
        r == digest_matches(password@, digest@),
{
    bcrypt::verify(password, digest).unwrap_or(false)
}

} // verus!
