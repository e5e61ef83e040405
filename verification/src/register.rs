//! The registration flow: validate before any I/O, hash the password
//! with a fresh salt, then create the user and issue a session as one
//! atomic step — a partially created account with no usable session
//! is never observable.

use vstd::prelude::*;

use crate::hashing::{hash_password, phc_check};
use crate::storage::error::StorageError;
use crate::storage::memory::{
    lemma_push_fresh_user_idx, lemma_session_token_idx, lemma_user_email_idx,
    spec_create_session, spec_create_user, spec_find_user_by_email, spec_remove_user,
    user_email_idx, MemoryStorage, StoreView,
};
use crate::storage::session::{base64_of, generate_token, Session, SessionView};
use crate::storage::user::{lower_of, to_lowercase, NewUser, UserView};

verus! {

/// Why a registration attempt was rejected.
#[derive(Clone, Copy, Debug, PartialEq, Eq, Structural)]
pub enum RegisterError {
    /// The password has fewer than eight characters.
    PasswordTooShort,
    /// The two password fields differ.
    PasswordMismatch,
    /// The store (or the hashing backend) failed; the whole
    /// transaction was rolled back.
    StoreFailure(StorageError),
}

/// The fields of the registration form.
pub struct RegisterData {
    pub email: String,
    pub username: Option<String>,
    pub password: String,
    pub repeat_password: String,
}

/// Validation, before any I/O: the password must have at least eight
/// characters and match its repetition.  Length is counted in
/// characters, not bytes, so a short password of multibyte
/// characters is still rejected; the two readings agree at the
/// ASCII boundary values.
pub fn validate_registration(data: RegisterData) -> (r: Result<NewUser, RegisterError>)
    ensures
        (data.password@.len() < 8) <==> r == Err::<NewUser, RegisterError>(
            RegisterError::PasswordTooShort,
        ),
        (data.password@.len() >= 8 && data.password@ != data.repeat_password@) <==> r == Err::<
            NewUser,
            RegisterError,
        >(RegisterError::PasswordMismatch),
        r is Ok <==> (data.password@.len() >= 8 && data.password@ == data.repeat_password@),
        r is Ok ==> r->Ok_0.email == data.email && r->Ok_0.username == data.username
            && r->Ok_0.password == data.password,
{
    if data.password.as_str().unicode_len() < 8 {
        return Err(RegisterError::PasswordTooShort);
    }
    if !(data.password == data.repeat_password) {
        return Err(RegisterError::PasswordMismatch);
    }
    Ok(NewUser { email: data.email, username: data.username, password: data.password })
}

/// Effect of the registration transaction once the hash and both
/// candidate tokens are fixed: create the user, then the session,
/// retrying a token collision once; on any failure after the user
/// insert the insert is compensated, so only the consumed user
/// identifier distinguishes the state from the initial one.
pub open spec fn spec_register_hashed(
    s: StoreView,
    email: Seq<char>,
    username: Option<Seq<char>>,
    password_hash: Seq<char>,
    token: Seq<char>,
    retry_token: Seq<char>,
    now: i64,
) -> (StoreView, Result<SessionView, StorageError>) {
    let (s1, ures) = spec_create_user(s, lower_of(email), username, password_hash, now);
    match ures {
        Err(e) => (s, Err(e)),
        Ok(uid) => {
            let burned = StoreView { next_user_id: s1.next_user_id, ..s };
            let (s2, sres) = spec_create_session(s1, uid, token, now);
            match sres {
                Ok(sid) => (
                    s2,
                    Ok(SessionView { id: sid, user_id: uid, token, created_at: now }),
                ),
                Err(StorageError::Conflict) => {
                    let (s3, sres2) = spec_create_session(s1, uid, retry_token, now);
                    match sres2 {
                        Ok(sid) => (
                            s3,
                            Ok(
                                SessionView {
                                    id: sid,
                                    user_id: uid,
                                    token: retry_token,
                                    created_at: now,
                                },
                            ),
                        ),
                        Err(e2) => (burned, Err(e2)),
                    }
                },
                Err(e1) => (burned, Err(e1)),
            }
        },
    }
}

/// Compensating a fresh user insert by removing the row under its
/// email restores exactly the initial rows.
proof fn lemma_rollback(
    s: StoreView,
    email_lower: Seq<char>,
    username: Option<Seq<char>>,
    password_hash: Seq<char>,
    now: i64,
)
    requires
        spec_create_user(s, email_lower, username, password_hash, now).1 is Ok,
    ensures
        ({
            let s1 = spec_create_user(s, email_lower, username, password_hash, now).0;
            let (post, res) = spec_remove_user(s1, email_lower);
            &&& res is Ok
            &&& post == (StoreView { next_user_id: s1.next_user_id, ..s })
        }),
{
    let s1 = spec_create_user(s, email_lower, username, password_hash, now).0;
    let n = s.users.len() as int;
    lemma_user_email_idx(s.users, email_lower);
    let nu = s1.users[n];
    assert(s1.users == s.users.push(nu));
    lemma_push_fresh_user_idx(s.users, nu);
    assert(user_email_idx(s1.users, email_lower) == n);
    let (post, res) = spec_remove_user(s1, email_lower);
    assert(post.users =~= s.users);
    assert(post =~= StoreView { next_user_id: s1.next_user_id, ..s });
}

/// The registration transaction with the hash and the two candidate
/// tokens fixed by the caller: deterministic, and exactly described
/// by `spec_register_hashed`.
pub fn register_hashed(
    store: &mut MemoryStorage,
    email: &str,
    username: Option<String>,
    password_hash: &str,
    token: &str,
    retry_token: &str,
    now: i64,
) -> (r: Result<Session, StorageError>)
    requires
        old(store)@.wf(),
        0 <= now,
    ensures
        final(store)@.wf(),
        ({
            let (post, res) = spec_register_hashed(
                old(store)@,
                email@,
                username.deep_view(),
                password_hash@,
                token@,
                retry_token@,
                now,
            );
            &&& final(store)@ == post
            &&& match (r, res) {
                (Ok(a), Ok(b)) => a@ == b,
                (Err(a), Err(b)) => a == b,
                _ => false,
            }
        }),
{
    let email_l = to_lowercase(email);
    let uid = match store.create_user(email, username, password_hash, now) {
        Ok(id) => id,
        Err(e) => {
            return Err(e);
        },
    };
    match store.create_session(uid, token, now) {
        Ok(sid) => Ok(Session { id: sid, user_id: uid, token: token.to_owned(), created_at: now }),
        Err(StorageError::Conflict) => {
            match store.create_session(uid, retry_token, now) {
                Ok(sid) => Ok(
                    Session { id: sid, user_id: uid, token: retry_token.to_owned(), created_at: now },
                ),
                Err(e) => {
                    proof {
                        lemma_rollback(
                            old(store)@,
                            lower_of(email@),
                            username.deep_view(),
                            password_hash@,
                            now,
                        );
                    }
                    let _ = store.remove_user(email_l.as_str());
                    Err(e)
                },
            }
        },
        Err(e) => {
            proof {
                lemma_rollback(
                    old(store)@,
                    lower_of(email@),
                    username.deep_view(),
                    password_hash@,
                    now,
                );
            }
            let _ = store.remove_user(email_l.as_str());
            Err(e)
        },
    }
}

/// Hash the password with a fresh random salt and run the
/// registration transaction with two fresh candidate tokens.  On any
/// failure no user or session row is left behind; the store's own
/// failure comes only where the store is unhealthy, and a conflict
/// only where the email is taken or a session row could collide.
pub fn register_new_user(store: &mut MemoryStorage, new_user: NewUser, now: i64) -> (r: Result<
    Session,
    StorageError,
>)
    requires
        old(store)@.wf(),
        0 <= now,
    ensures
        final(store)@.wf(),
        r is Err ==> final(store)@.users == old(store)@.users,
        r is Err ==> final(store)@.sessions == old(store)@.sessions,
        r is Err ==> final(store)@.users_ready == old(store)@.users_ready,
        r is Err ==> final(store)@.sessions_ready == old(store)@.sessions_ready,
        r == Err::<Session, StorageError>(StorageError::Backend) ==> (!old(store)@.users_ready
            || !old(store)@.sessions_ready || old(store)@.next_user_id == i64::MAX || old(
            store,
        )@.next_session_id == i64::MAX),
        r == Err::<Session, StorageError>(StorageError::Conflict) ==> (user_email_idx(
            old(store)@.users,
            lower_of(new_user.email@),
        ) < old(store)@.users.len() || old(store)@.sessions.len() > 0),
        r is Ok ==> (exists|b: Seq<u8>| b.len() == 16 && r->Ok_0@.token == base64_of(b))
            && r->Ok_0@.token.len() == 24,
        r is Ok ==> exists|h: Seq<char>, t1: Seq<char>, t2: Seq<char>|
            {
                let (post, res) = #[trigger] spec_register_hashed(
                    old(store)@,
                    new_user.email@,
                    new_user.username.deep_view(),
                    h,
                    t1,
                    t2,
                    now,
                );
                &&& phc_check(h, new_user.password@) == Some(true)
                &&& (exists|b: Seq<u8>| b.len() == 16 && t1 == base64_of(b)) && t1.len() == 24
                &&& (exists|b: Seq<u8>| b.len() == 16 && t2 == base64_of(b)) && t2.len() == 24
                &&& final(store)@ == post
                &&& res == Ok::<SessionView, StorageError>(r->Ok_0@)
            },
{
    let hash = match hash_password(new_user.password.as_str()) {
        Ok(h) => h,
        Err(e) => {
            return Err(e);
        },
    };
    let t1 = generate_token();
    let t2 = generate_token();
    let r = register_hashed(
        store,
        new_user.email.as_str(),
        new_user.username,
        hash.as_str(),
        t1.as_str(),
        t2.as_str(),
        now,
    );
    proof {
        if r is Err {
            lemma_registration_atomic(
                old(store)@,
                new_user.email@,
                new_user.username.deep_view(),
                hash@,
                t1@,
                t2@,
                now,
            );
            lemma_session_token_idx(old(store)@.sessions, t1@);
            lemma_session_token_idx(old(store)@.sessions, t2@);
            lemma_user_email_idx(old(store)@.users, lower_of(new_user.email@));
        } else {
            assert(r->Ok_0@.token == t1@ || r->Ok_0@.token == t2@);
        }
    }
    r
}

/// Registration, end to end: validate, hash, then one atomic
/// user-plus-session creation.
pub fn register(store: &mut MemoryStorage, data: RegisterData, now: i64) -> (r: Result<
    Session,
    RegisterError,
>)
    requires
        old(store)@.wf(),
        0 <= now,
    ensures
        final(store)@.wf(),
        (data.password@.len() < 8) <==> r == Err::<Session, RegisterError>(
            RegisterError::PasswordTooShort,
        ),
        (data.password@.len() >= 8 && data.password@ != data.repeat_password@) <==> r == Err::<
            Session,
            RegisterError,
        >(RegisterError::PasswordMismatch),
        r is Err ==> final(store)@.users == old(store)@.users,
        r is Err ==> final(store)@.sessions == old(store)@.sessions,
        r is Err ==> final(store)@.users_ready == old(store)@.users_ready,
        r is Err ==> final(store)@.sessions_ready == old(store)@.sessions_ready,
        r == Err::<Session, RegisterError>(
            RegisterError::StoreFailure(StorageError::Backend),
        ) ==> (!old(store)@.users_ready || !old(store)@.sessions_ready || old(
            store,
        )@.next_user_id == i64::MAX || old(store)@.next_session_id == i64::MAX),
        r == Err::<Session, RegisterError>(
            RegisterError::StoreFailure(StorageError::Conflict),
        ) ==> (user_email_idx(old(store)@.users, lower_of(data.email@)) < old(
            store,
        )@.users.len() || old(store)@.sessions.len() > 0),
        r is Ok ==> (exists|b: Seq<u8>| b.len() == 16 && r->Ok_0@.token == base64_of(b))
            && r->Ok_0@.token.len() == 24,
        r is Ok ==> data.password@.len() >= 8 && data.password@ == data.repeat_password@
            && exists|h: Seq<char>, t1: Seq<char>, t2: Seq<char>|
            {
                let (post, res) = #[trigger] spec_register_hashed(
                    old(store)@,
                    data.email@,
                    data.username.deep_view(),
                    h,
                    t1,
                    t2,
                    now,
                );
                &&& phc_check(h, data.password@) == Some(true)
                &&& (exists|b: Seq<u8>| b.len() == 16 && t1 == base64_of(b)) && t1.len() == 24
                &&& (exists|b: Seq<u8>| b.len() == 16 && t2 == base64_of(b)) && t2.len() == 24
                &&& final(store)@ == post
                &&& res == Ok::<SessionView, StorageError>(r->Ok_0@)
            },
{
    let new_user = match validate_registration(data) {
        Ok(nu) => nu,
        Err(e) => {
            return Err(e);
        },
    };
    match register_new_user(store, new_user, now) {
        Ok(sess) => Ok(sess),
        Err(e) => Err(RegisterError::StoreFailure(e)),
    }
}

/// Law (registration atomicity): where the transaction fails, no user
/// and no session row is left behind — in particular, looking the
/// email up afterward gives exactly what it gave before.
pub proof fn lemma_registration_atomic(
    s: StoreView,
    email: Seq<char>,
    username: Option<Seq<char>>,
    password_hash: Seq<char>,
    token: Seq<char>,
    retry_token: Seq<char>,
    now: i64,
)
    ensures
        ({
            let (post, res) = spec_register_hashed(
                s,
                email,
                username,
                password_hash,
                token,
                retry_token,
                now,
            );
            res is Err ==> {
                &&& post.users == s.users
                &&& post.sessions == s.sessions
                &&& post.users_ready == s.users_ready
                &&& post.sessions_ready == s.sessions_ready
                &&& spec_find_user_by_email(post, email) == spec_find_user_by_email(s, email)
            }
        }),
{
}

/// Law (registration round trip): after a successful registration,
/// logging in with the same password — under any email that lowers
/// to the same address — authenticates and returns the new user.
pub proof fn lemma_register_then_login(
    s: StoreView,
    email: Seq<char>,
    username: Option<Seq<char>>,
    password_hash: Seq<char>,
    token: Seq<char>,
    retry_token: Seq<char>,
    now: i64,
    login_email: Seq<char>,
    password: Seq<char>,
)
    requires
        lower_of(login_email) == lower_of(email),
        phc_check(password_hash, password) == Some(true),
        spec_register_hashed(s, email, username, password_hash, token, retry_token, now).1 is Ok,
    ensures
        ({
            let post = spec_register_hashed(
                s,
                email,
                username,
                password_hash,
                token,
                retry_token,
                now,
            ).0;
            crate::login::spec_verify_login(post, login_email, password) == Ok::<
                UserView,
                crate::login::LoginError,
            >(
                UserView {
                    id: s.next_user_id,
                    email: lower_of(email),
                    username,
                    password_hash,
                    created_at: now,
                },
            )
        }),
{
    let post = spec_register_hashed(s, email, username, password_hash, token, retry_token, now).0;
    let s1 = spec_create_user(s, lower_of(email), username, password_hash, now).0;
    let n = s.users.len() as int;
    let nu = s1.users[n];
    assert(s1.users == s.users.push(nu));
    lemma_user_email_idx(s.users, lower_of(email));
    lemma_push_fresh_user_idx(s.users, nu);
    assert(post.users == s1.users);
    assert(user_email_idx(post.users, lower_of(login_email)) == n);
}

} // verus!
