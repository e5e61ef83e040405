//! The gateway decision: classify one inbound request as exempt,
//! authenticated or unauthenticated, and fail closed when the store
//! cannot answer.

use vstd::prelude::*;

use crate::exceptions::{is_exception, path_is_exception};
use crate::headers::{cookie_value, spec_cookie_value};
use crate::storage::memory::{spec_find_session, spec_find_session_by_token, MemoryStorage, StoreView};
use crate::storage::session::session_live;

verus! {

/// The terminal state for one request.
#[derive(Clone, Copy, Debug, PartialEq, Eq, Structural)]
pub enum GatewayDecision {
    /// Hand the request to the forwarder.
    Forward,
    /// Hand the request to the login and registration surface; it
    /// never reaches the upstream.
    Deny,
    /// The store failed during the session check: answer with an
    /// internal error rather than guessing either way.
    InternalError,
}

/// The decision owed for every state and request: exempt paths
/// forward unconditionally; otherwise only a cookie that names a
/// live, unexpired session forwards, an absent or expired session
/// denies, and a store failure fails closed.
pub open spec fn spec_gateway_decide(
    s: StoreView,
    path: Seq<char>,
    session_cookie: Option<Seq<char>>,
    exceptions: Seq<Seq<char>>,
    now: i64,
) -> GatewayDecision {
    if path_is_exception(path, exceptions) {
        GatewayDecision::Forward
    } else {
        match session_cookie {
            None => GatewayDecision::Deny,
            Some(token) => match spec_find_session_by_token(s, token, now) {
                Err(_) => GatewayDecision::InternalError,
                Ok(None) => GatewayDecision::Deny,
                Ok(Some(_)) => GatewayDecision::Forward,
            },
        }
    }
}

/// Classify one request from its path and the value of the session
/// cookie, consulting the store only where the path is not exempt.
pub fn gateway_decide(
    store: &MemoryStorage,
    path: &str,
    session_cookie: Option<&String>,
    exceptions: &Vec<String>,
    now: i64,
) -> (r: GatewayDecision)
    requires
        store@.wf(),
        0 <= now,
    ensures
        r == spec_gateway_decide(
            store@,
            path@,
            session_cookie.deep_view(),
            exceptions.deep_view(),
            now,
        ),
{
    if is_exception(path, exceptions) {
        return GatewayDecision::Forward;
    }
    match session_cookie {
        None => GatewayDecision::Deny,
        Some(token) => match store.find_session_by_token(token.as_str(), now) {
            Err(_) => GatewayDecision::InternalError,
            Ok(None) => GatewayDecision::Deny,
            Ok(Some(_)) => GatewayDecision::Forward,
        },
    }
}

/// The session token carried by a request's `Cookie` header, if any.
pub open spec fn spec_session_token(cookie_header: Option<Seq<char>>) -> Option<Seq<char>> {
    match cookie_header {
        None => None,
        Some(h) => spec_cookie_value(h, "SHARP_token"@),
    }
}

/// Classify one request from its path and its raw `Cookie` header:
/// extract the session cookie's value, then decide.
pub fn gateway_decide_request(
    store: &MemoryStorage,
    path: &str,
    cookie_header: Option<&String>,
    exceptions: &Vec<String>,
    now: i64,
) -> (r: GatewayDecision)
    requires
        store@.wf(),
        0 <= now,
    ensures
        r == spec_gateway_decide(
            store@,
            path@,
            spec_session_token(cookie_header.deep_view()),
            exceptions.deep_view(),
            now,
        ),
{
    let token = match cookie_header {
        Some(hd) => cookie_value(hd.as_str(), "SHARP_token"),
        None => None,
    };
    gateway_decide(store, path, token.as_ref(), exceptions, now)
}

/// Law: an exempt path reaches the forwarder whatever cookie the
/// request carries and whatever the store holds.
pub proof fn lemma_exempt_path_forwarded(
    s: StoreView,
    path: Seq<char>,
    session_cookie: Option<Seq<char>>,
    exceptions: Seq<Seq<char>>,
    now: i64,
)
    requires
        path_is_exception(path, exceptions),
    ensures
        spec_gateway_decide(s, path, session_cookie, exceptions, now)
            == GatewayDecision::Forward,
{
}

/// Law: a request without a session cookie to a non-exempt path is
/// denied.
pub proof fn lemma_missing_cookie_denied(
    s: StoreView,
    path: Seq<char>,
    exceptions: Seq<Seq<char>>,
    now: i64,
)
    requires
        !path_is_exception(path, exceptions),
    ensures
        spec_gateway_decide(s, path, None, exceptions, now) == GatewayDecision::Deny,
{
}

/// Law: a cookie naming a live, unexpired session reaches the
/// forwarder.
pub proof fn lemma_live_session_forwarded(
    s: StoreView,
    path: Seq<char>,
    token: Seq<char>,
    exceptions: Seq<Seq<char>>,
    now: i64,
)
    requires
        s.sessions_ready,
        spec_find_session(s.sessions, token) is Some,
        session_live(spec_find_session(s.sessions, token)->Some_0, now),
    ensures
        spec_gateway_decide(s, path, Some(token), exceptions, now) == GatewayDecision::Forward,
{
}

/// Law: a token older than the maximum lifetime is denied exactly
/// like a missing cookie.
pub proof fn lemma_expired_session_like_missing(
    s: StoreView,
    path: Seq<char>,
    token: Seq<char>,
    exceptions: Seq<Seq<char>>,
    now: i64,
)
    requires
        s.sessions_ready,
        spec_find_session(s.sessions, token) is Some,
        !session_live(spec_find_session(s.sessions, token)->Some_0, now),
    ensures
        spec_gateway_decide(s, path, Some(token), exceptions, now) == spec_gateway_decide(
            s,
            path,
            None,
            exceptions,
            now,
        ),
{
}

} // verus!
