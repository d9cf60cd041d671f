use proxy::build_auth_redirect;
use proxy::cache::new_cache;
use proxy::cache::SessionStore;
use proxy::cookie::Cookie;
use proxy::errors::CookieIsMissing;
use proxy::errors::ExchangeErrorDetail;
use proxy::errors::ExchangeFailure;
use proxy::errors::Rejection;
use proxy::errors::ResponseBuildError;
use proxy::errors::UnauthenticatedUser;
use proxy::exchange_failure_response;
use proxy::filters::guard_response;
use proxy::filters::handle_auth_cookie;
use proxy::filters::handle_rejection;
use proxy::filters::get_value_from_cache;
use proxy::filters::parse_scopes;
use proxy::oauth::build_client;
use proxy::redirect;
use proxy::token;
use proxy::token_success_response;

const ATTRS: &str = "; Max-Age=86400; HttpOnly; Path=/; SameSite=Lax";

fn q(pairs: &[(&str, &str)]) -> Vec<(String, String)> {
    pairs.iter().map(|(k, v)| (k.to_string(), v.to_string())).collect()
}

#[test]
fn store_returns_last_put_value() {
    let mut store: SessionStore = new_cache();
    store.put("sid-1".to_string(), "cred-1".to_string());
    store.put("sid-2".to_string(), "cred-2".to_string());
    assert_eq!(store.get(&"sid-1".to_string()), Some(&"cred-1".to_string()));
    assert_eq!(store.get(&"sid-2".to_string()), Some(&"cred-2".to_string()));
}

#[test]
fn store_overwrites_under_same_key() {
    let mut store = new_cache();
    store.put("sid-1".to_string(), "cred-1".to_string());
    store.put("sid-1".to_string(), "cred-2".to_string());
    assert_eq!(store.get(&"sid-1".to_string()), Some(&"cred-2".to_string()));
}

#[test]
fn store_absent_key_is_none() {
    let mut store = new_cache();
    assert_eq!(store.get(&"sid-1".to_string()), None);
    store.put("sid-1".to_string(), "cred-1".to_string());
    assert_eq!(store.get(&"never-inserted".to_string()), None);
}

#[test]
fn cookie_renders_fixed_attributes() {
    let cookie = Cookie::new("pkce", "verifier-value".to_string());
    assert_eq!(
        cookie.header_value(),
        "pkce=verifier-value; Max-Age=86400; HttpOnly; Path=/; SameSite=Lax"
    );
}

#[test]
fn scopes_split_on_spaces() {
    assert_eq!(parse_scopes("openid email"), vec!["openid".to_string(), "email".to_string()]);
}

#[test]
fn scopes_single_name() {
    assert_eq!(parse_scopes("openid"), vec!["openid".to_string()]);
}

#[test]
fn scopes_empty_string_gives_one_empty_name() {
    assert_eq!(parse_scopes(""), vec![String::new()]);
}

#[test]
fn scopes_double_space_keeps_empty_name() {
    assert_eq!(
        parse_scopes("a  b"),
        vec!["a".to_string(), String::new(), "b".to_string()]
    );
}

#[test]
fn rejection_not_found_is_404() {
    let resp = handle_rejection(&Rejection::NotFound);
    assert_eq!(resp.status, 404);
    assert_eq!(resp.body, "Page not found");
    assert_eq!(resp.location, None);
    assert_eq!(resp.set_cookie, None);
}

#[test]
fn rejection_cookie_missing_is_500() {
    let resp = handle_rejection(&Rejection::CookieMissing(CookieIsMissing));
    assert_eq!(resp.status, 500);
    assert_eq!(resp.body, "A cookie is missing from the request");
    assert_eq!(resp.location, None);
    assert_eq!(resp.set_cookie, None);
}

#[test]
fn rejection_unauthenticated_redirects_to_login() {
    let resp = handle_rejection(&Rejection::Unauthenticated(UnauthenticatedUser {
        path: "/secret".to_string(),
    }));
    assert_eq!(resp.status, 307);
    assert_eq!(resp.location, Some("/oauth/auth".to_string()));
    assert_eq!(resp.set_cookie, Some(format!("redirect_url=/secret{}", ATTRS)));
    assert_eq!(resp.body, "");
}

#[test]
fn rejection_unauthenticated_favicon_is_404() {
    let resp = handle_rejection(&Rejection::Unauthenticated(UnauthenticatedUser {
        path: "/favicon.ico".to_string(),
    }));
    assert_eq!(resp.status, 404);
    assert_eq!(resp.body, "");
    assert_eq!(resp.location, None);
    assert_eq!(resp.set_cookie, None);
}

#[test]
fn rejection_build_error_is_500() {
    let resp = handle_rejection(&Rejection::Build(ResponseBuildError));
    assert_eq!(resp.status, 500);
    assert_eq!(resp.body, "Something went wrong!");
}

#[test]
fn rejection_other_is_500() {
    let resp = handle_rejection(&Rejection::Other);
    assert_eq!(resp.status, 500);
    assert_eq!(resp.body, "Something went wrong!");
}

#[test]
fn guard_admits_live_session() {
    let mut store = new_cache();
    store.put("sid-1".to_string(), "cred-1".to_string());
    assert!(handle_auth_cookie(&store, Some("sid-1".to_string()), "/secret".to_string()).is_ok());
    assert_eq!(
        get_value_from_cache(&store, Some("sid-1".to_string())),
        Some("cred-1".to_string())
    );
    assert!(guard_response(&store, Some("sid-1".to_string()), "/secret".to_string()).is_none());
}

#[test]
fn guard_rejects_missing_cookie() {
    let store = new_cache();
    let resp = guard_response(&store, None, "/secret".to_string()).expect("must reject");
    assert_eq!(resp.status, 307);
    assert_eq!(resp.location, Some("/oauth/auth".to_string()));
    assert_eq!(resp.set_cookie, Some(format!("redirect_url=/secret{}", ATTRS)));
    assert_eq!(resp.body, "");
}

#[test]
fn guard_treats_stale_cookie_like_missing_cookie() {
    let mut store = new_cache();
    store.put("sid-1".to_string(), "cred-1".to_string());
    let with_stale =
        guard_response(&store, Some("no-such-session".to_string()), "/secret".to_string())
            .expect("must reject");
    let without = guard_response(&store, None, "/secret".to_string()).expect("must reject");
    assert_eq!(with_stale.status, without.status);
    assert_eq!(with_stale.location, without.location);
    assert_eq!(with_stale.set_cookie, without.set_cookie);
    assert_eq!(with_stale.body, without.body);
}

#[test]
fn guard_favicon_probe_is_404() {
    let store = new_cache();
    let resp = guard_response(&store, None, "/favicon.ico".to_string()).expect("must reject");
    assert_eq!(resp.status, 404);
    assert_eq!(resp.body, "");
    assert_eq!(resp.set_cookie, None);
}

fn unreachable_client() -> proxy::oauth::AuthClient {
    build_client(
        "https://provider.example/authorize".to_string(),
        "http://127.0.0.1:9/token".to_string(),
        "client-id".to_string(),
        "SECRET-REDACTED".to_string(),
        "https://gateway.example/oauth/callback".to_string(),
    )
    .expect("urls are well-formed")
}

#[test]
fn callback_without_code_is_500_without_cookies() {
    let client = unreachable_client();
    let mut store = new_cache();
    let r = token(None, None, &q(&[("state", "xyz")]), &client, &mut store);
    let resp = r.expect("answered directly");
    assert_eq!(resp.status, 500);
    assert_eq!(resp.body, "Internal server error, missing code from query");
}

#[test]
fn callback_without_code_is_500_with_cookies() {
    let client = unreachable_client();
    let mut store = new_cache();
    let r = token(
        Some("verifier".to_string()),
        Some("/secret".to_string()),
        &q(&[]),
        &client,
        &mut store,
    );
    let resp = r.expect("answered directly");
    assert_eq!(resp.status, 500);
    assert_eq!(resp.body, "Internal server error, missing code from query");
}

#[test]
fn callback_without_pkce_cookie_raises_cookie_missing() {
    let client = unreachable_client();
    let mut store = new_cache();
    let r = token(None, None, &q(&[("code", "abc123")]), &client, &mut store);
    let e = r.err().expect("must raise a signal");
    assert!(matches!(e, Rejection::CookieMissing(_)));
    let resp = handle_rejection(&e);
    assert_eq!(resp.status, 500);
    assert_eq!(resp.body, "A cookie is missing from the request");
}

#[test]
fn callback_failed_exchange_reports_diagnostic_body() {
    let client = unreachable_client();
    let mut store = new_cache();
    let r = token(
        Some("verifier".to_string()),
        None,
        &q(&[("code", "abc123")]),
        &client,
        &mut store,
    );
    let resp = r.expect("diagnostic is answered directly");
    assert_eq!(resp.status, 200);
    assert_eq!(resp.body, "Auth server response not okay\nRequest failed | Something else");
    assert_eq!(store.get(&"sid".to_string()), None);
}

#[test]
fn exchange_failure_body_server_detail() {
    let resp = exchange_failure_response(&ExchangeFailure {
        summary: "Server returned error response".to_string(),
        detail: ExchangeErrorDetail::Server("invalid_grant".to_string()),
    });
    assert_eq!(resp.status, 200);
    assert_eq!(
        resp.body,
        "Auth server response not okay\nServer returned error response | auth server reason: invalid_grant"
    );
}

#[test]
fn exchange_failure_body_parse_detail() {
    let resp = exchange_failure_response(&ExchangeFailure {
        summary: "Failed to parse server response".to_string(),
        detail: ExchangeErrorDetail::Parse("not json".to_string()),
    });
    assert_eq!(resp.body, "Auth server response not okay\nFailed to parse server response | not json");
}

#[test]
fn exchange_failure_body_other_detail() {
    let resp = exchange_failure_response(&ExchangeFailure {
        summary: "Other error: oops".to_string(),
        detail: ExchangeErrorDetail::Other,
    });
    assert_eq!(resp.body, "Auth server response not okay\nOther error: oops | other");
}

#[test]
fn exchange_failure_body_request_detail() {
    let resp = exchange_failure_response(&ExchangeFailure {
        summary: "Request failed".to_string(),
        detail: ExchangeErrorDetail::Request,
    });
    assert_eq!(resp.body, "Auth server response not okay\nRequest failed | Something else");
}

#[test]
fn successful_exchange_stores_session_and_redirects() {
    let mut store = new_cache();
    let resp = token_success_response(
        "new-sid".to_string(),
        "credential".to_string(),
        Some("/secret".to_string()),
        &mut store,
    );
    assert_eq!(resp.status, 307);
    assert_eq!(resp.location, Some("/secret".to_string()));
    assert_eq!(resp.set_cookie, Some(format!("proxy_token=new-sid{}", ATTRS)));
    assert_eq!(resp.body, "");
    assert_eq!(store.get(&"new-sid".to_string()), Some(&"credential".to_string()));
}

#[test]
fn successful_exchange_defaults_to_root() {
    let mut store = new_cache();
    let resp =
        token_success_response("new-sid".to_string(), "credential".to_string(), None, &mut store);
    assert_eq!(resp.location, Some("/".to_string()));
}

#[test]
fn auth_redirect_sets_pkce_cookie() {
    let resp = build_auth_redirect(
        "https://provider.example/authorize?response_type=code".to_string(),
        "verifier-value".to_string(),
    );
    assert_eq!(resp.status, 307);
    assert_eq!(
        resp.location,
        Some("https://provider.example/authorize?response_type=code".to_string())
    );
    assert_eq!(resp.set_cookie, Some(format!("pkce=verifier-value{}", ATTRS)));
    assert_eq!(resp.body, "");
}

#[test]
fn redirect_builds_provider_url() {
    let client = unreachable_client();
    let resp = redirect(&client, &parse_scopes("openid email"));
    assert_eq!(resp.status, 307);
    let location = resp.location.expect("redirects to the provider");
    assert!(location.starts_with("https://provider.example/authorize"));
    assert!(location.contains("code_challenge"));
    assert!(location.contains("scope=openid+email"));
    let cookie = resp.set_cookie.expect("sets the pkce cookie");
    assert!(cookie.starts_with("pkce="));
    assert!(cookie.ends_with(ATTRS));
    assert_eq!(resp.body, "");
}

#[test]
fn build_client_rejects_malformed_url() {
    let client = build_client(
        "not a url".to_string(),
        "http://127.0.0.1:9/token".to_string(),
        "client-id".to_string(),
        "SECRET-REDACTED".to_string(),
        "https://gateway.example/oauth/callback".to_string(),
    );
    assert!(client.is_none());
}

#[test]
fn login_round_trip_admits_the_caller() {
    let mut store = new_cache();

    let rejected = guard_response(&store, None, "/secret".to_string()).expect("must reject");
    assert_eq!(rejected.status, 307);
    assert_eq!(rejected.location, Some("/oauth/auth".to_string()));
    assert_eq!(rejected.set_cookie, Some(format!("redirect_url=/secret{}", ATTRS)));

    let client = unreachable_client();
    let login = redirect(&client, &parse_scopes("openid"));
    assert_eq!(login.status, 307);
    assert!(login.set_cookie.expect("pkce cookie").starts_with("pkce="));

    let back = token_success_response(
        "new-session-id".to_string(),
        "backend-credential".to_string(),
        Some("/secret".to_string()),
        &mut store,
    );
    assert_eq!(back.status, 307);
    assert_eq!(back.location, Some("/secret".to_string()));
    assert_eq!(back.set_cookie, Some(format!("proxy_token=new-session-id{}", ATTRS)));

    assert!(
        guard_response(&store, Some("new-session-id".to_string()), "/secret".to_string())
            .is_none()
    );
}
