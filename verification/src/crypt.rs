//! Password hashing, behind a minimal trusted boundary around the `bcrypt`
//! crate.  Everything the rest of the crate knows about hashing is stated
//! here over `bcrypt_check`.
use vstd::prelude::*;

verus! {

/// What `bcrypt::verify` returns for a password and a stored hash string:
/// `Some(b)` when verification runs, with `b` saying whether the password
/// matches the hash, and `None` when the hash string itself is rejected as
/// malformed.  `bcrypt::verify` recomputes the hash from the password and
/// the salt and cost embedded in the hash string, so its result is a
/// deterministic function of exactly these two arguments.
pub uninterp spec fn bcrypt_check(password: Seq<char>, hash: Seq<char>) -> Option<bool>;

/// A hash string that `bcrypt::verify` accepts whatever the password is:
/// the shape of every string `bcrypt::hash` produces.
pub open spec fn hash_wf(hash: Seq<char>) -> bool {
    forall|password: Seq<char>| (#[trigger] bcrypt_check(password, hash)) is Some
}

#[verifier::external_type_specification]
#[verifier::external_body]
pub struct ExBcryptError(bcrypt::BcryptError);

/// Relies on `bcrypt::hash` with `bcrypt::DEFAULT_COST`: on success the
/// result is a well-formed bcrypt hash string (60 ASCII characters, valid
/// version tag and cost), which `bcrypt::verify` therefore parses for any
/// password, and which verifies `true` against the password it hashes.
/// Failure is possible (the salt comes from OS randomness), so success is
/// never promised.
#[verifier::external_body]
pub(crate) fn hash_password(password: &str) -> (r: Result<String, bcrypt::BcryptError>)
    ensures
        r matches Ok(h) ==> bcrypt_check(password@, h@) == Some(true) && hash_wf(h@),
{
    bcrypt::hash(password, bcrypt::DEFAULT_COST)
}

/// Relies on `bcrypt::verify`: a deterministic, constant-time comparison of
/// the password against the hash, which errs exactly when the hash string
/// is malformed and never because of the password.
#[verifier::external_body]
pub(crate) fn verify_password(password: &str, hash: &str) -> (r: Result<
    bool,
    bcrypt::BcryptError,
>)
    ensures
        r matches Ok(b) ==> bcrypt_check(password@, hash@) == Some(b),
        r is Err ==> bcrypt_check(password@, hash@) is None,
{
    bcrypt::verify(password, hash)
}

} // verus!
