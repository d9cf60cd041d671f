//! The session guard and the rejection translator, and the parsing of the
//! configured scope list.
//!
//! The guard decides, from the `proxy_token` cookie and the session store
//! alone, whether a request may pass to the backend; it raises a typed
//! signal otherwise. The translator is the single place that turns failure
//! signals into wire-level responses.

use vstd::prelude::*;
use vstd::string::StrSliceExecFns;
use vstd::string::StringExecFns;
use crate::cache::SessionStore;
use crate::cookie::Cookie;
use crate::cookie::spec_cookie;
use crate::errors::Rejection;
use crate::errors::RejectionV;
use crate::errors::UnauthenticatedUser;
use crate::response::Response;
use crate::response::SpecResponse;
use crate::response::STATUS_INTERNAL_SERVER_ERROR;
use crate::response::STATUS_NOT_FOUND;
use crate::response::STATUS_TEMPORARY_REDIRECT;

verus! {

/// The response owed to an unauthenticated request for `path`: 404 for the
/// browser's automatic favicon probe, otherwise a redirect to the login
/// route that captures `path` in a `redirect_url` cookie.
pub open spec fn spec_unauthenticated_response(path: Seq<char>) -> SpecResponse {
    if path == "/favicon.ico"@ {
        SpecResponse {
            status: 404,
            location: None,
            set_cookie: None,
            body: Seq::<char>::empty(),
        }
    } else {
        SpecResponse {
            status: 307,
            location: Some("/oauth/auth"@),
            set_cookie: Some(spec_cookie("redirect_url"@, path)),
            body: Seq::<char>::empty(),
        }
    }
}

/// The total mapping from failure signal to HTTP response.
pub open spec fn spec_handle_rejection(r: RejectionV) -> SpecResponse {
    match r {
        RejectionV::NotFound => SpecResponse {
            status: 404,
            location: None,
            set_cookie: None,
            body: "Page not found"@,
        },
        RejectionV::CookieMissing => SpecResponse {
            status: 500,
            location: None,
            set_cookie: None,
            body: "A cookie is missing from the request"@,
        },
        RejectionV::Unauthenticated(path) => spec_unauthenticated_response(path),
        RejectionV::Build => SpecResponse {
            status: 500,
            location: None,
            set_cookie: None,
            body: "Something went wrong!"@,
        },
        RejectionV::Other => SpecResponse {
            status: 500,
            location: None,
            set_cookie: None,
            body: "Something went wrong!"@,
        },
    }
}

/// Resolves a failure signal to the one response the contract table allows
/// for it.
pub fn handle_rejection(err: &Rejection) -> (r: Response)
    ensures
        r@ == spec_handle_rejection(err@),
{
    match err {
        Rejection::NotFound => Response {
            status: STATUS_NOT_FOUND,
            location: None,
            set_cookie: None,
            body: String::from_str("Page not found"),
        },
        Rejection::CookieMissing(_) => Response {
            status: STATUS_INTERNAL_SERVER_ERROR,
            location: None,
            set_cookie: None,
            body: String::from_str("A cookie is missing from the request"),
        },
        Rejection::Unauthenticated(u) => {
            if u.path == String::from_str("/favicon.ico") {
                Response {
                    status: STATUS_NOT_FOUND,
                    location: None,
                    set_cookie: None,
                    body: String::new(),
                }
            } else {
                let cookie = Cookie::new("redirect_url", u.path.clone());
                Response {
                    status: STATUS_TEMPORARY_REDIRECT,
                    location: Some(String::from_str("/oauth/auth")),
                    set_cookie: Some(cookie.header_value()),
                    body: String::new(),
                }
            }
        },
        Rejection::Build(_) => Response {
            status: STATUS_INTERNAL_SERVER_ERROR,
            location: None,
            set_cookie: None,
            body: String::from_str("Something went wrong!"),
        },
        Rejection::Other => Response {
            status: STATUS_INTERNAL_SERVER_ERROR,
            location: None,
            set_cookie: None,
            body: String::from_str("Something went wrong!"),
        },
    }
}

/// The view of an optional cookie value.
pub open spec fn spec_opt_str(o: Option<String>) -> Option<Seq<char>> {
    match o {
        Some(s) => Some(s@),
        None => None,
    }
}

/// The guard admits a request exactly when it carries a cookie whose value
/// is a key of the session store.
pub open spec fn spec_guard_admits(m: Map<Seq<char>, Seq<char>>, cookie: Option<Seq<char>>) -> bool {
    match cookie {
        Some(c) => m.contains_key(c),
        None => false,
    }
}

/// Looks an optional session identifier up in the store: the credential
/// stored under it, or nothing when there is no cookie or no entry.
pub fn get_value_from_cache(store: &SessionStore, key: Option<String>) -> (r: Option<String>)
    requires
        store.wf(),
    ensures
        match r {
            Some(v) => spec_guard_admits(store@, spec_opt_str(key))
                && v@ == store@[spec_opt_str(key)->0],
            None => !spec_guard_admits(store@, spec_opt_str(key)),
        },
{
    match key {
        Some(k) => match store.get(&k) {
            Some(v) => Some(v.clone()),
            None => None,
        },
        None => None,
    }
}

/// The session guard: admits the request when its `proxy_token` cookie
/// resolves to a live session, and raises `Unauthenticated` carrying the
/// requested path otherwise. Performs exactly one store lookup.
pub fn handle_auth_cookie(store: &SessionStore, cookie_value: Option<String>, path: String) -> (r:
    Result<(), Rejection>)
    requires
        store.wf(),
    ensures
        r is Ok <==> spec_guard_admits(store@, spec_opt_str(cookie_value)),
        r matches Err(e) ==> e@ == RejectionV::Unauthenticated(path@),
{
    let found = get_value_from_cache(store, cookie_value);
    match found {
        Some(_) => Ok(()),
        None => Err(Rejection::Unauthenticated(UnauthenticatedUser { path })),
    }
}

/// What a protected request is answered with: nothing when the guard
/// admits it (the request is forwarded), otherwise the translated
/// rejection.
pub open spec fn spec_guard_response(
    m: Map<Seq<char>, Seq<char>>,
    cookie: Option<Seq<char>>,
    path: Seq<char>,
) -> Option<SpecResponse> {
    if spec_guard_admits(m, cookie) {
        None
    } else {
        Some(spec_unauthenticated_response(path))
    }
}

/// The guard and the translator composed, as the protected route wires
/// them: the response owed to a protected request, or nothing when the
/// request passes through to the backend.
pub fn guard_response(store: &SessionStore, cookie_value: Option<String>, path: String) -> (r:
    Option<Response>)
    requires
        store.wf(),
    ensures
        match r {
            None => spec_guard_admits(store@, spec_opt_str(cookie_value)),
            Some(resp) => !spec_guard_admits(store@, spec_opt_str(cookie_value))
                && resp@ == spec_unauthenticated_response(path@),
        },
{
    match handle_auth_cookie(store, cookie_value, path) {
        Ok(_) => None,
        Err(e) => Some(handle_rejection(&e)),
    }
}

/// A request with no session cookie against a protected path is always
/// redirected to the login route with the path captured in a
/// `redirect_url` cookie — except the favicon probe, which is answered
/// 404 so browsers do not loop through spurious login redirects.
pub proof fn lemma_no_cookie_redirect(m: Map<Seq<char>, Seq<char>>, path: Seq<char>)
    ensures
        spec_guard_response(m, None, path) == Some(spec_unauthenticated_response(path)),
        path != "/favicon.ico"@ ==> spec_unauthenticated_response(path) == (SpecResponse {
            status: 307,
            location: Some("/oauth/auth"@),
            set_cookie: Some(spec_cookie("redirect_url"@, path)),
            body: Seq::<char>::empty(),
        }),
        path == "/favicon.ico"@ ==> spec_unauthenticated_response(path) == (SpecResponse {
            status: 404,
            location: None::<Seq<char>>,
            set_cookie: None::<Seq<char>>,
            body: Seq::<char>::empty(),
        }),
{
}

/// A `proxy_token` cookie whose value has no session store entry is
/// treated identically to a request with no cookie at all.
pub proof fn lemma_unknown_cookie_like_missing(
    m: Map<Seq<char>, Seq<char>>,
    v: Seq<char>,
    path: Seq<char>,
)
    requires
        !m.contains_key(v),
    ensures
        spec_guard_response(m, Some(v), path) == spec_guard_response(m, None, path),
{
}

/// The cookie-missing signal is always answered 500 with the
/// cookie-missing message.
pub proof fn lemma_cookie_missing_response()
    ensures
        spec_handle_rejection(RejectionV::CookieMissing) == (SpecResponse {
            status: 500,
            location: None::<Seq<char>>,
            set_cookie: None::<Seq<char>>,
            body: "A cookie is missing from the request"@,
        }),
{
}

/// The scope names in a space-separated scope string, empty names kept,
/// reading from the end: a trailing space opens a fresh empty name, any
/// other character joins the last name.
pub open spec fn spec_split_scopes(s: Seq<char>) -> Seq<Seq<char>>
    decreases s.len(),
{
    if s.len() == 0 {
        seq![Seq::<char>::empty()]
    } else if s.last() == ' ' {
        spec_split_scopes(s.drop_last()).push(Seq::<char>::empty())
    } else {
        let r = spec_split_scopes(s.drop_last());
        r.update(r.len() - 1, r.last().push(s.last()))
    }
}

/// The views of a sequence of strings.
pub open spec fn views_of(s: Seq<String>) -> Seq<Seq<char>> {
    s.map_values(|x: String| x@)
}

/// Relies on std's `String::push`: appends exactly the one character.
#[verifier::external_body]
fn push_char(s: &mut String, c: char)
    ensures
        final(s)@ == old(s)@.push(c),
{
    s.push(c);
}

proof fn lemma_split_scopes_nonempty(s: Seq<char>)
    ensures
        spec_split_scopes(s).len() >= 1,
    decreases s.len(),
{
    if s.len() > 0 {
        lemma_split_scopes_nonempty(s.drop_last());
    }
}

/// Splits the configured scope string on single spaces into the scope
/// names requested from the provider.
pub fn parse_scopes(scopes: &str) -> (r: Vec<String>)
    ensures
        views_of(r@) == spec_split_scopes(scopes@),
{
    let n = scopes.unicode_len();
    let mut r: Vec<String> = Vec::new();
    let mut cur: String = String::new();
    let mut i: usize = 0;
    proof {
        assert(views_of(r@).push(cur@) =~= spec_split_scopes(scopes@.take(0)));
    }
    while i < n
        invariant
            n == scopes@.len(),
            0 <= i <= n,
            views_of(r@).push(cur@) == spec_split_scopes(scopes@.take(i as int)),
        decreases n - i,
    {
        let ghost prefix = scopes@.take(i as int);
        let c = scopes.get_char(i);
        proof {
            assert(scopes@.take(i + 1).drop_last() =~= prefix);
            assert(scopes@.take(i + 1).last() == c);
        }
        if c == ' ' {
            let ghost r0 = r@;
            let ghost cur0 = cur@;
            r.push(cur);
            cur = String::new();
            proof {
                assert(views_of(r@) =~= views_of(r0).push(cur0));
                assert(views_of(r@).push(cur@) =~= spec_split_scopes(scopes@.take(i + 1)));
            }
        } else {
            let ghost q = spec_split_scopes(prefix);
            push_char(&mut cur, c);
            proof {
                lemma_split_scopes_nonempty(prefix);
                assert(q.last() == views_of(r@).push(cur@.drop_last()).last());
                assert(views_of(r@).push(cur@) =~= q.update(q.len() - 1, q.last().push(c)));
            }
        }
        i = i + 1;
    }
    proof {
        assert(scopes@.take(n as int) =~= scopes@);
    }
    r.push(cur);
    proof {
        assert(views_of(r@) =~= views_of(r@.drop_last()).push(r@.last()@));
    }
    r
}

} // verus!
