//! The login verifier: authenticates an email/password pair without
//! revealing, through its work, whether the email exists.  The
//! password is hashed on both the found and the not-found path, so
//! the CPU cost of "unknown email" and "known email, wrong password"
//! is the same; the two cases also resolve to the same error value.

use vstd::prelude::*;

use crate::hashing::{argon2_hash, argon2_verify, phc_check};
use crate::storage::error::StorageError;
use crate::storage::memory::{
    spec_find_user, spec_find_user_by_email, MemoryStorage, StoreView,
};
use crate::storage::session::{base64_of, issue_session, random_bytes_16, Session};
use crate::storage::user::{lower_of, User, UserView};

verus! {

/// Why a login attempt did not authenticate.
#[derive(Clone, Copy, Debug, PartialEq, Eq, Structural)]
pub enum LoginError {
    /// The email is unknown or the password is wrong; the two cases
    /// are deliberately indistinguishable.
    InvalidCredentials,
    /// The stored hash is malformed or the hashing backend failed;
    /// never reported as a wrong password.
    HashingFailure,
    /// The store failed.
    StoreFailure(StorageError),
}

/// The fields of the login form.
pub struct LoginData {
    pub email: String,
    pub password: String,
}

/// The outcome `verify_login` owes for every state and input: the
/// user found under the lower-cased email where the password checks
/// out against the stored hash, and otherwise the one error kind the
/// failed check maps to.
pub open spec fn spec_verify_login(s: StoreView, email: Seq<char>, password: Seq<char>) -> Result<
    UserView,
    LoginError,
> {
    match spec_find_user_by_email(s, email) {
        Err(e) => Err(LoginError::StoreFailure(e)),
        Ok(None) => Err(LoginError::InvalidCredentials),
        Ok(Some(u)) => match phc_check(u.password_hash, password) {
            None => Err(LoginError::HashingFailure),
            Some(true) => Ok(u),
            Some(false) => Err(LoginError::InvalidCredentials),
        },
    }
}

/// Authenticate `email` and `password` against the store.  Whether or
/// not a user is found, a password hash is computed: for a found user
/// by recomputing against the stored hash's own parameters and salt,
/// for a missing user with a fresh random salt, so that the two cases
/// cost the same.
pub fn verify_login(store: &MemoryStorage, email: &str, password: &str) -> (r: Result<
    User,
    LoginError,
>)
    ensures
        match r {
            Ok(u) => spec_verify_login(store@, email@, password@) == Ok::<UserView, LoginError>(
                u@,
            ),
            Err(e) => spec_verify_login(store@, email@, password@) == Err::<UserView, LoginError>(
                e,
            ),
        },
{
    let found = match store.find_user_by_email(email) {
        Ok(u) => u,
        Err(e) => {
            return Err(LoginError::StoreFailure(e));
        },
    };
    match found {
        Some(user) => match argon2_verify(user.password_hash.as_str(), password) {
            Ok(true) => Ok(user),
            Ok(false) => Err(LoginError::InvalidCredentials),
            Err(_) => Err(LoginError::HashingFailure),
        },
        None => {
            // Hash anyway, with a fresh salt and default parameters,
            // so an unknown email costs as much as a wrong password.
            let salt = random_bytes_16();
            let _ = argon2_hash(password, &salt);
            Err(LoginError::InvalidCredentials)
        },
    }
}

/// Authenticate and, on success, issue a new session for the user.
/// Where the credentials verify, session issuance fails only through
/// the store: never on a healthy store with an empty session table,
/// with `Backend` exactly where the store is unhealthy, and with a
/// collision only against an existing row.  On any failure the store
/// is left unchanged.
pub fn login_user(store: &mut MemoryStorage, data: &LoginData, now: i64) -> (r: Result<
    Session,
    LoginError,
>)
    requires
        old(store)@.wf(),
        0 <= now,
    ensures
        final(store)@.wf(),
        (spec_verify_login(old(store)@, data.email@, data.password@) is Ok && old(
            store,
        )@.sessions_ready && old(store)@.next_session_id < i64::MAX && old(
            store,
        )@.sessions.len() == 0) ==> r is Ok,
        match spec_verify_login(old(store)@, data.email@, data.password@) {
            Err(e) => r == Err::<Session, LoginError>(e) && final(store)@ == old(store)@,
            Ok(u) => match r {
                Ok(sess) => {
                    &&& sess@.user_id == u.id
                    &&& sess@.created_at == now
                    &&& crate::storage::memory::session_token_idx(
                        old(store)@.sessions,
                        sess@.token,
                    ) == old(store)@.sessions.len()
                    &&& exists|b: Seq<u8>| b.len() == 16 && sess@.token == base64_of(b)
                    &&& sess@.token.len() == 24
                    &&& final(store)@.sessions == old(store)@.sessions.push(sess@)
                    &&& final(store)@.users == old(store)@.users
                },
                Err(e) => {
                    &&& final(store)@ == old(store)@
                    &&& (e == LoginError::StoreFailure(StorageError::Conflict) || e
                        == LoginError::StoreFailure(StorageError::Backend))
                    &&& (e == LoginError::StoreFailure(StorageError::Backend) <==> (!old(
                        store,
                    )@.sessions_ready || old(store)@.next_session_id == i64::MAX))
                    &&& (e == LoginError::StoreFailure(StorageError::Conflict) ==> old(
                        store,
                    )@.sessions.len() > 0)
                },
            },
        },
{
    let user = match verify_login(store, data.email.as_str(), data.password.as_str()) {
        Ok(u) => u,
        Err(e) => {
            return Err(e);
        },
    };
    match issue_session(store, user.id, now) {
        Ok(sess) => Ok(sess),
        Err(e) => Err(LoginError::StoreFailure(e)),
    }
}

/// Law: a user stored under the lower-cased email whose hash checks
/// out against the supplied password logs in successfully, and the
/// verifier returns exactly that user.
pub proof fn lemma_stored_user_logs_in(s: StoreView, email: Seq<char>, password: Seq<char>)
    requires
        s.users_ready,
        spec_find_user(s.users, lower_of(email)) is Some,
        phc_check(spec_find_user(s.users, lower_of(email))->Some_0.password_hash, password)
            == Some(true),
    ensures
        spec_verify_login(s, email, password) == Ok::<UserView, LoginError>(
            spec_find_user(s.users, lower_of(email))->Some_0,
        ),
{
}

/// Law: an unknown email and a known email with a wrong password
/// fail with the very same `InvalidCredentials` value; the result
/// does not distinguish the two cases.
pub proof fn lemma_invalid_credentials_indistinguishable(
    s: StoreView,
    unknown_email: Seq<char>,
    password1: Seq<char>,
    known_email: Seq<char>,
    password2: Seq<char>,
)
    requires
        s.users_ready,
        spec_find_user(s.users, lower_of(unknown_email)) is None,
        spec_find_user(s.users, lower_of(known_email)) is Some,
        phc_check(spec_find_user(s.users, lower_of(known_email))->Some_0.password_hash, password2)
            == Some(false),
    ensures
        spec_verify_login(s, unknown_email, password1) == spec_verify_login(
            s,
            known_email,
            password2,
        ),
        spec_verify_login(s, unknown_email, password1) == Err::<UserView, LoginError>(
            LoginError::InvalidCredentials,
        ),
{
}

} // verus!
