//! An authenticating reverse-proxy gateway's core: the OAuth2/PKCE
//! authorization-code exchange, the session store mapping opaque session
//! identifiers to backend access credentials, the cookie-based session
//! guard, and the rejection translator that routes unauthenticated
//! traffic through login.
//!
//! Byte-level request forwarding, the HTTP server, and configuration
//! loading are outside collaborators; this crate decides, for every
//! request, which response the gateway owes.

use vstd::prelude::*;
use vstd::string::StringExecFns;

pub mod cache;
pub mod cookie;
pub mod errors;
pub mod filters;
pub mod oauth;
pub mod response;

use crate::cache::SessionStore;
use crate::cookie::Cookie;
use crate::cookie::spec_cookie;
use crate::errors::CookieIsMissing;
use crate::errors::ExchangeFailure;
use crate::errors::ExchangeFailureV;
use crate::errors::ExchangeErrorDetail;
use crate::errors::ExchangeErrorDetailV;
use crate::errors::Rejection;
use crate::errors::RejectionV;
use crate::filters::spec_opt_str;
use crate::oauth::AuthClient;
use crate::response::Response;
use crate::response::SpecResponse;
use crate::response::STATUS_OK;
use crate::response::STATUS_INTERNAL_SERVER_ERROR;
use crate::response::STATUS_TEMPORARY_REDIRECT;

verus! {

/// The path a completed login returns the caller to: the captured
/// redirect target, or the root when none was captured.
pub open spec fn spec_redirect_target(redirect_url: Option<Seq<char>>) -> Seq<char> {
    match redirect_url {
        Some(u) => u,
        None => "/"@,
    }
}

/// The redirect that starts a login: it sends the caller to the
/// provider's authorization URL and parks the PKCE verifier in a `pkce`
/// cookie on the caller's browser.
pub fn build_auth_redirect(auth_url: String, verifier: String) -> (r: Response)
    ensures
        r@ == (SpecResponse {
            status: 307,
            location: Some(auth_url@),
            set_cookie: Some(spec_cookie("pkce"@, verifier@)),
            body: Seq::<char>::empty(),
        }),
{
    let cookie = Cookie::new("pkce", verifier);
    Response {
        status: STATUS_TEMPORARY_REDIRECT,
        location: Some(auth_url),
        set_cookie: Some(cookie.header_value()),
        body: String::new(),
    }
}

/// The authorization initiator: mints a fresh PKCE pair, builds the
/// provider's authorization URL with the requested scopes attached, and
/// answers with a redirect to it that sets the `pkce` cookie. Each call
/// mints a new verifier; no server-side record is kept.
pub fn redirect(auth_client: &AuthClient, scopes: &Vec<String>) -> (r: Response)
    ensures
        r@.status == 307,
        r@.body == Seq::<char>::empty(),
        r@.location is Some,
        exists|v: Seq<char>| r@.set_cookie == Some(spec_cookie("pkce"@, v)),
{
    let (auth_url, verifier) = oauth::authorize_url_with_pkce(auth_client, scopes);
    let ghost v = verifier@;
    let r = build_auth_redirect(auth_url, verifier);
    proof {
        assert(r@.set_cookie == Some(spec_cookie("pkce"@, v)));
    }
    r
}

/// The value of the first `code` query parameter, when one is present.
pub open spec fn spec_query_code(q: Seq<(String, String)>) -> Option<Seq<char>>
    decreases q.len(),
{
    if q.len() == 0 {
        None
    } else if q.first().0@ == "code"@ {
        Some(q.first().1@)
    } else {
        spec_query_code(q.drop_first())
    }
}

/// Extracts the authorization code from the callback's query parameters.
fn query_code(query: &Vec<(String, String)>) -> (r: Option<&String>)
    ensures
        match r {
            Some(v) => spec_query_code(query@) == Some(v@),
            None => spec_query_code(query@) is None,
        },
{
    let n = query.len();
    let mut i: usize = 0;
    proof {
        assert(query@.skip(0) =~= query@);
    }
    while i < n
        invariant
            n == query@.len(),
            0 <= i <= n,
            spec_query_code(query@) == spec_query_code(query@.skip(i as int)),
        decreases n - i,
    {
        proof {
            assert(query@.skip(i as int).first() == query@[i as int]);
            assert(query@.skip(i as int).drop_first() =~= query@.skip(i + 1));
        }
        if query[i].0 == String::from_str("code") {
            return Some(&query[i].1);
        }
        i = i + 1;
    }
    proof {
        assert(query@.skip(n as int) =~= Seq::<(String, String)>::empty());
    }
    None
}

/// The diagnostic detail quoted for each way an exchange can fail.
pub open spec fn spec_more_details(d: ExchangeErrorDetailV) -> Seq<char> {
    match d {
        ExchangeErrorDetailV::Server(s) => "auth server reason: "@ + s,
        ExchangeErrorDetailV::Parse(s) => s,
        ExchangeErrorDetailV::Other => "other"@,
        ExchangeErrorDetailV::Request => "Something else"@,
    }
}

/// The whole diagnostic body for a failed exchange: the failure's summary
/// and its category-specific detail.
pub open spec fn spec_exchange_failure_body(f: ExchangeFailureV) -> Seq<char> {
    "Auth server response not okay\n"@ + f.summary + " | "@ + spec_more_details(f.detail)
}

/// The best-effort diagnostic response for a failed exchange, answered
/// with the default status rather than as a rejection signal.
pub open spec fn spec_exchange_failure_response(f: ExchangeFailureV) -> SpecResponse {
    SpecResponse {
        status: 200,
        location: None,
        set_cookie: None,
        body: spec_exchange_failure_body(f),
    }
}

/// Renders the diagnostic response for a failed token exchange.
pub fn exchange_failure_response(f: &ExchangeFailure) -> (r: Response)
    ensures
        r@ == spec_exchange_failure_response(f@),
{
    let mut body = String::from_str("Auth server response not okay\n");
    body.append(f.summary.as_str());
    body.append(" | ");
    match &f.detail {
        ExchangeErrorDetail::Server(s) => {
            body.append("auth server reason: ");
            body.append(s.as_str());
        },
        ExchangeErrorDetail::Parse(s) => {
            body.append(s.as_str());
        },
        ExchangeErrorDetail::Other => {
            body.append("other");
        },
        ExchangeErrorDetail::Request => {
            body.append("Something else");
        },
    }
    proof {
        assert(body@ =~= spec_exchange_failure_body(f@));
    }
    Response { status: STATUS_OK, location: None, set_cookie: None, body }
}

/// The response that completes a login: a redirect to the captured
/// target setting the fresh session identifier as the `proxy_token`
/// cookie.
pub open spec fn spec_token_success_response(
    sid: Seq<char>,
    redirect_url: Option<Seq<char>>,
) -> SpecResponse {
    SpecResponse {
        status: 307,
        location: Some(spec_redirect_target(redirect_url)),
        set_cookie: Some(spec_cookie("proxy_token"@, sid)),
        body: Seq::<char>::empty(),
    }
}

/// The response answered when the callback's query has no `code`
/// parameter: a malformed-request condition, answered directly.
pub open spec fn spec_missing_code_response() -> SpecResponse {
    SpecResponse {
        status: 500,
        location: None,
        set_cookie: None,
        body: "Internal server error, missing code from query"@,
    }
}

/// Completes a successful exchange: stores the access credential under
/// the fresh session identifier — the only step that touches the session
/// store — and answers with the redirect back to the caller's original
/// destination, setting the `proxy_token` cookie.
pub fn token_success_response(
    session_id: String,
    access_token: String,
    redirect_url: Option<String>,
    cache: &mut SessionStore,
) -> (r: Response)
    requires
        old(cache).wf(),
    ensures
        final(cache).wf(),
        final(cache)@ == old(cache)@.insert(session_id@, access_token@),
        r@ == spec_token_success_response(session_id@, spec_opt_str(redirect_url)),
{
    let cookie = Cookie::new("proxy_token", session_id.clone());
    cache.put(session_id, access_token);
    let target = match redirect_url {
        Some(u) => u,
        None => String::from_str("/"),
    };
    Response {
        status: STATUS_TEMPORARY_REDIRECT,
        location: Some(target),
        set_cookie: Some(cookie.header_value()),
        body: String::new(),
    }
}

/// The callback exchanger. With no `code` query parameter it answers the
/// malformed-request response directly; with no `pkce` cookie it raises
/// the cookie-missing signal; otherwise it trades the code and verifier
/// with the provider, and either stores a fresh session and redirects the
/// caller back to the captured target, or answers the diagnostic body for
/// the failed exchange, leaving the store untouched.
pub fn token(
    cookie: Option<String>,
    redirect_url: Option<String>,
    query: &Vec<(String, String)>,
    auth_client: &AuthClient,
    cache: &mut SessionStore,
) -> (r: Result<Response, Rejection>)
    requires
        old(cache).wf(),
    ensures
        final(cache).wf(),
        spec_query_code(query@) is None ==> (r matches Ok(resp) && resp@
            == spec_missing_code_response() && final(cache)@ == old(cache)@),
        spec_query_code(query@) is Some && cookie is None ==> (r matches Err(e) && e@
            == RejectionV::CookieMissing && final(cache)@ == old(cache)@),
        spec_query_code(query@) is Some && cookie is Some ==> (r matches Ok(resp) && {
            ||| (final(cache)@ == old(cache)@ && exists|f: ExchangeFailureV| resp@
                == spec_exchange_failure_response(f))
            ||| exists|sid: Seq<char>, tok: Seq<char>| final(cache)@ == old(cache)@.insert(sid, tok)
                && resp@ == spec_token_success_response(sid, spec_opt_str(redirect_url))
        }),
{
    let code: String = match query_code(query) {
        Some(c) => c.clone(),
        None => {
            return Ok(Response {
                status: STATUS_INTERNAL_SERVER_ERROR,
                location: None,
                set_cookie: None,
                body: String::from_str("Internal server error, missing code from query"),
            });
        },
    };
    let verifier: String = match cookie {
        Some(c) => c,
        None => {
            return Err(Rejection::CookieMissing(CookieIsMissing));
        },
    };
    match oauth::exchange_code(auth_client, code, verifier) {
        Err(f) => Ok(exchange_failure_response(&f)),
        Ok(access_token) => {
            let session_id = oauth::new_session_id();
            Ok(token_success_response(session_id, access_token, redirect_url, cache))
        },
    }
}

} // verus!
