//! Password hashing: a memory-hard hash with a fresh random salt on
//! registration, and recomputation against the stored self-describing
//! hash string on login.

use vstd::prelude::*;

use crate::storage::error::StorageError;
use crate::storage::session::random_bytes_16;

verus! {

/// The error type of the password-hashing backend.
#[verifier::external_type_specification]
#[verifier::external_body]
pub struct ExPasswordHashError(argon2::password_hash::Error);

/// The PHC string that hashing `password` with `salt` (default
/// algorithm, version and parameters) produces, or `None` where
/// hashing fails; a pure function of password and salt alone.
pub uninterp spec fn phc_of(password: Seq<char>, salt: Seq<u8>) -> Option<Seq<char>>;

/// The outcome of checking `password` against the stored PHC string
/// `stored`: `None` where the stored string cannot be parsed or the
/// hash cannot be recomputed, otherwise whether the recomputed hash
/// matches.  A pure function of the two strings alone.
pub uninterp spec fn phc_check(stored: Seq<char>, password: Seq<char>) -> Option<bool>;

/// Relies on `argon2::Argon2::default().hash_password_with_salt`: the
/// produced PHC string is a deterministic function of password and
/// salt, and a password always verifies against its own fresh hash.
#[verifier::external_body]
pub(crate) fn argon2_hash(password: &str, salt: &Vec<u8>) -> (r: Result<
    String,
    argon2::password_hash::Error,
>)
    ensures
        r is Ok ==> phc_of(password@, salt@) == Some(r->Ok_0@),
        r is Ok ==> phc_check(r->Ok_0@, password@) == Some(true),
{
    argon2::PasswordHasher::hash_password_with_salt(
        &argon2::Argon2::default(),
        password.as_bytes(),
        salt.as_slice(),
    ).map(|h| h.to_string())
}

/// Relies on `argon2::PasswordHash::new` and
/// `argon2::PasswordVerifier::verify_password`: the stored PHC string
/// is parsed, the hash is recomputed from the supplied password with
/// the algorithm, version, parameters and salt embedded in it, and
/// the two digests are compared in full (constant time).  The outcome
/// is a deterministic function of the stored string and the password;
/// a string produced by hashing this password always checks out.
#[verifier::external_body]
pub(crate) fn argon2_verify(stored: &str, password: &str) -> (r: Result<
    bool,
    argon2::password_hash::Error,
>)
    ensures
        match r {
            Ok(b) => phc_check(stored@, password@) == Some(b),
            Err(_) => phc_check(stored@, password@) is None,
        },
        (exists|salt: Seq<u8>| phc_of(password@, salt) == Some(stored@)) ==> r is Ok
            && r->Ok_0 == true,
{
    match argon2::PasswordHash::new(stored) {
        Ok(hash) => match argon2::PasswordVerifier::verify_password(
            &argon2::Argon2::default(),
            password.as_bytes(),
            &hash,
        ) {
            Ok(()) => Ok(true),
            Err(argon2::password_hash::Error::PasswordInvalid) => Ok(false),
            Err(e) => Err(e),
        },
        Err(e) => Err(e.into()),
    }
}

/// Hash a password with a fresh random 16-byte salt and the default
/// parameters.  On success the returned PHC string checks out against
/// the very password that produced it.
pub fn hash_password(password: &str) -> (r: Result<String, StorageError>)
    ensures
        r is Ok ==> phc_check(r->Ok_0@, password@) == Some(true),
        r is Ok ==> exists|salt: Seq<u8>|
            salt.len() == 16 && phc_of(password@, salt) == Some(r->Ok_0@),
        r is Err ==> r->Err_0 == StorageError::PasswordHashing,
{
    let salt = random_bytes_16();
    match argon2_hash(password, &salt) {
        Ok(h) => Ok(h),
        Err(_) => Err(StorageError::PasswordHashing),
    }
}

} // verus!
