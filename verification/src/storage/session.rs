//! Sessions: proof of a successful authentication, carried as an
//! unguessable base64 token and honored only while young enough.

use vstd::prelude::*;

use crate::storage::error::StorageError;
use crate::storage::memory::{lemma_session_token_idx, session_token_idx, MemoryStorage};
use crate::storage::user::UserId;

verus! {

pub type SessionId = i64;

/// Maximum age, in seconds, for which a session is honored (one day).
pub const MAX_AGE: i64 = 86400;

/// Standard base64 (with padding) of a byte sequence, as the
/// `base64` crate's STANDARD engine computes it; a pure function of
/// the bytes alone.
pub uninterp spec fn base64_of(bytes: Seq<u8>) -> Seq<char>;

/// Relies on `base64::engine::general_purpose::STANDARD.encode`
/// (via the `Engine` trait) to encode bytes as base64 text: four
/// characters for every three bytes, padded.
#[verifier::external_body]
pub(crate) fn base64_encode(bytes: &Vec<u8>) -> (r: String)
    ensures
        r@ == base64_of(bytes@),
        r@.len() == 4 * ((bytes@.len() + 2) / 3),
{
    base64::Engine::encode(&base64::engine::general_purpose::STANDARD, bytes)
}

/// Relies on `rand::random`: 16 bytes from the thread-local
/// cryptographically secure generator.  Nothing can be promised of the
/// value beyond its length.
#[verifier::external_body]
pub(crate) fn random_bytes_16() -> (r: Vec<u8>)
    ensures
        r@.len() == 16,
{
    rand::random::<[u8; 16]>().to_vec()
}

/// A stored session row.
#[derive(Debug)]
pub struct Session {
    pub id: SessionId,
    /// The owning user; many sessions may exist per user.
    pub user_id: UserId,
    /// 128-bit random value, base64-encoded; unique across all
    /// sessions and never derived from user-controlled input.
    pub token: String,
    /// Issuance time in seconds.
    pub created_at: i64,
}

/// Spec-level image of a `Session`.
#[verifier::ext_equal]
pub ghost struct SessionView {
    pub id: i64,
    pub user_id: i64,
    pub token: Seq<char>,
    pub created_at: i64,
}

impl View for Session {
    type V = SessionView;

    open spec fn view(&self) -> SessionView {
        SessionView {
            id: self.id,
            user_id: self.user_id,
            token: self.token@,
            created_at: self.created_at,
        }
    }
}

impl DeepView for Session {
    type V = SessionView;

    open spec fn deep_view(&self) -> SessionView {
        self.view()
    }
}

/// Whether a session is still honored at time `now`: its age must not
/// exceed the maximum lifetime.
pub open spec fn session_live(s: SessionView, now: i64) -> bool {
    now - s.created_at <= MAX_AGE
}

/// A session about to be persisted: the owning user and a fresh token.
pub struct NewSession {
    pub user_id: UserId,
    pub token: String,
}

/// A fresh 128-bit token from the secure random source,
/// base64-encoded.
pub fn generate_token() -> (r: String)
    ensures
        exists|bytes: Seq<u8>| bytes.len() == 16 && r@ == base64_of(bytes),
        r@.len() == 24,
{
    let bytes = random_bytes_16();
    base64_encode(&bytes)
}

impl NewSession {
    /// Draw a fresh 128-bit token from the secure random source and
    /// base64-encode it.
    pub fn generate(user_id: UserId) -> (r: NewSession)
        ensures
            r.user_id == user_id,
            exists|bytes: Seq<u8>| bytes.len() == 16 && r.token@ == base64_of(bytes),
            r.token@.len() == 24,
    {
        NewSession { user_id, token: generate_token() }
    }
}

/// Issue a session for `user_id`: draw a random 128-bit token,
/// base64-encode and persist it, and on the (negligible) token
/// collision retry once with a second fresh token.  On success the
/// new row carries a fresh base64 token no earlier row holds; the
/// store's own failures come if and only if the store is unhealthy,
/// a collision needs an existing row, and on an empty table no draw
/// can fail.  On failure the store is unchanged.
pub fn issue_session(store: &mut MemoryStorage, user_id: UserId, now: i64) -> (r: Result<
    Session,
    StorageError,
>)
    requires
        old(store)@.wf(),
        0 <= now,
    ensures
        final(store)@.wf(),
        final(store)@.users == old(store)@.users,
        final(store)@.users_ready == old(store)@.users_ready,
        final(store)@.sessions_ready == old(store)@.sessions_ready,
        final(store)@.next_user_id == old(store)@.next_user_id,
        r == Err::<Session, StorageError>(StorageError::Backend) <==> (!old(
            store,
        )@.sessions_ready || old(store)@.next_session_id == i64::MAX),
        r == Err::<Session, StorageError>(StorageError::Conflict) ==> old(
            store,
        )@.sessions.len() > 0,
        (old(store)@.sessions_ready && old(store)@.next_session_id < i64::MAX && old(
            store,
        )@.sessions.len() == 0) ==> r is Ok,
        match r {
            Ok(sess) => {
                &&& sess@.user_id == user_id
                &&& sess@.created_at == now
                &&& sess@.id == old(store)@.next_session_id
                &&& session_token_idx(old(store)@.sessions, sess@.token) == old(
                    store,
                )@.sessions.len()
                &&& exists|b: Seq<u8>| b.len() == 16 && sess@.token == base64_of(b)
                &&& sess@.token.len() == 24
                &&& final(store)@.sessions == old(store)@.sessions.push(sess@)
                &&& final(store)@.next_session_id == old(store)@.next_session_id + 1
            },
            Err(e) => {
                &&& final(store)@ == old(store)@
                &&& (e == StorageError::Conflict || e == StorageError::Backend)
            },
        },
{
    let fresh = NewSession::generate(user_id);
    proof {
        lemma_session_token_idx(old(store)@.sessions, fresh.token@);
    }
    match store.create_session(user_id, fresh.token.as_str(), now) {
        Ok(id) => Ok(Session { id, user_id, token: fresh.token, created_at: now }),
        Err(StorageError::Conflict) => {
            let retry = NewSession::generate(user_id);
            proof {
                lemma_session_token_idx(old(store)@.sessions, retry.token@);
            }
            match store.create_session(user_id, retry.token.as_str(), now) {
                Ok(id) => Ok(Session { id, user_id, token: retry.token, created_at: now }),
                Err(e) => Err(e),
            }
        },
        Err(e) => Err(e),
    }
}

} // verus!
