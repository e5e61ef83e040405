//! The forwarder's computing parts: rewriting a request's target to
//! the upstream address, and shaping the fixed-format diagnostic
//! answer for a connection failure.  Opening the TCP connection and
//! streaming bytes stays outside the library.

use vstd::prelude::*;

verus! {

/// The gateway's version string, as spec-level text.
pub open spec fn spec_version() -> Seq<char> {
    "sharp 0.1.0"@
}

/// The gateway's own name and version, included in diagnostic bodies.
pub fn version_string() -> (r: &'static str)
    ensures
        r@ == spec_version(),
{
    "sharp 0.1.0"
}

/// The rewritten target: the upstream address with the original path
/// and query, defaulting to the root path.  Method, headers and body
/// are left untouched by the forwarder.
pub open spec fn spec_rewrite_target(
    upstream: Seq<char>,
    path_and_query: Option<Seq<char>>,
) -> Seq<char> {
    "http://"@ + upstream + (match path_and_query {
        Some(p) => p,
        None => "/"@,
    })
}

/// Rewrite a request's target to `upstream` plus the original path
/// and query.
pub fn rewrite_target(upstream: &str, path_and_query: Option<&String>) -> (r: String)
    ensures
        r@ == spec_rewrite_target(upstream@, path_and_query.deep_view()),
{
    let mut out = String::from_str("http://");
    out.append(upstream);
    match path_and_query {
        Some(p) => out.append(p.as_str()),
        None => out.append("/"),
    }
    proof {
        assert(out@ =~= spec_rewrite_target(upstream@, path_and_query.deep_view()));
    }
    out
}

/// A response as the forwarder shapes it: a status code and a text
/// body.
pub struct HttpResponse {
    pub status: u16,
    pub body: String,
}

/// The fixed diagnostic body: the failure reason framed by a fixed
/// first line and the gateway's version string.
pub open spec fn spec_bad_gateway_body(reason: Seq<char>) -> Seq<char> {
    "failed to connect to upstream server\n"@ + reason + "\n\n"@ + spec_version()
}

/// The answer for a connect or handshake failure: status 502 with
/// the fixed diagnostic body, distinguishable from any upstream
/// application error.
pub fn bad_gateway_response(reason: &str) -> (r: HttpResponse)
    ensures
        r.status == 502,
        r.body@ == spec_bad_gateway_body(reason@),
{
    let mut body = String::from_str("failed to connect to upstream server\n");
    body.append(reason);
    body.append("\n\n");
    body.append(version_string());
    proof {
        assert(body@ =~= spec_bad_gateway_body(reason@));
    }
    HttpResponse { status: 502, body }
}

/// Law: whatever the failure reason, the diagnostic body contains
/// the gateway's version string.
pub proof fn lemma_bad_gateway_names_version(reason: Seq<char>)
    ensures
        ({
            let b = spec_bad_gateway_body(reason);
            let v = spec_version();
            exists|i: int|
                0 <= i && i + v.len() <= b.len() && #[trigger] b.subrange(i, i + v.len() as int)
                    == v
        }),
{
    let b = spec_bad_gateway_body(reason);
    let v = spec_version();
    let i = b.len() - v.len();
    assert(b.subrange(i as int, i as int + v.len() as int) =~= v);
    assert(0 <= i as int && i as int + v.len() <= b.len() && b.subrange(
        i as int,
        i as int + v.len() as int,
    ) == v);
}

} // verus!
