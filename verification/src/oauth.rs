//! The boundary to the OAuth2 provider. Everything here is a thin wrapper
//! around an outside call; the gateway's own logic states its contracts
//! over the plain values these wrappers take and return.

use vstd::prelude::*;
use oauth2::TokenResponse;
use crate::errors::ExchangeErrorDetail;
use crate::errors::ExchangeFailure;

verus! {

/// Carries the configured oauth2 `BasicClient` through the gateway. The
/// value is opaque: the contracts of the wrappers below are all that is
/// assumed of it.
#[verifier::external_body]
pub struct AuthClient {
    client: oauth2::basic::BasicClient,
}

/// Relies on oauth2's `AuthUrl::new`, `TokenUrl::new`, `RedirectUrl::new`
/// (each a URL parse that fails on a malformed URL, answered here with
/// `None`), `BasicClient::new` and `Client::set_redirect_uri`: assembles
/// the provider client from the configured endpoints and credentials.
#[verifier::external_body]
pub fn build_client(
    auth_url: String,
    token_url: String,
    client_id: String,
    client_secret: String,
    redirect_url: String,
) -> Option<AuthClient> {
    let auth = oauth2::AuthUrl::new(auth_url).ok()?;
    let token = oauth2::TokenUrl::new(token_url).ok()?;
    let redirect = oauth2::RedirectUrl::new(redirect_url).ok()?;
    let client = oauth2::basic::BasicClient::new(
        oauth2::ClientId::new(client_id),
        Some(oauth2::ClientSecret::new(client_secret)),
        auth,
        Some(token),
    );
    Some(AuthClient { client: client.set_redirect_uri(redirect) })
}

/// Relies on oauth2's `PkceCodeChallenge::new_random_sha256`,
/// `Client::authorize_url` with `CsrfToken::new_random`, `add_scopes` and
/// `set_pkce_challenge`: builds the provider's authorization URL for a
/// fresh PKCE pair and anti-forgery token, and hands back that URL with
/// the PKCE verifier's secret. Both are freshly random; nothing can be
/// promised of their values.
#[verifier::external_body]
pub(crate) fn authorize_url_with_pkce(client: &AuthClient, scopes: &Vec<String>) -> (String, String) {
    let (pkce_challenge, pkce_verifier) = oauth2::PkceCodeChallenge::new_random_sha256();
    let (auth_url, _csrf_token) = client
        .client
        .authorize_url(oauth2::CsrfToken::new_random)
        .add_scopes(scopes.iter().map(|s| oauth2::Scope::new(s.clone())))
        .set_pkce_challenge(pkce_challenge)
        .url();
    (auth_url.to_string(), pkce_verifier.secret().clone())
}

/// Relies on oauth2's `Client::exchange_code` with `set_pkce_verifier`,
/// requested over `oauth2::reqwest::http_client` (a network call): trades
/// the authorization code and PKCE verifier for the access token's
/// secret. On failure, carries the error's display text over, and the
/// variants of oauth2's `RequestTokenError` one for one: the server's
/// error text, the unparsable response decoded as text, or the bare
/// category.
#[verifier::external_body]
pub(crate) fn exchange_code(
    client: &AuthClient,
    code: String,
    verifier: String,
) -> Result<String, ExchangeFailure> {
    let result = client.client.exchange_code(oauth2::AuthorizationCode::new(code))
        .set_pkce_verifier(oauth2::PkceCodeVerifier::new(verifier))
        .request(oauth2::reqwest::http_client);
    match result {
        Ok(token) => Ok(token.access_token().secret().clone()),
        Err(err) => {
            let summary = err.to_string();
            Err(ExchangeFailure { summary, detail: match err {
                oauth2::RequestTokenError::ServerResponse(e) => ExchangeErrorDetail::Server(e.to_string()),
                oauth2::RequestTokenError::Parse(_, raw) => ExchangeErrorDetail::Parse(String::from_utf8_lossy(&raw).into_owned()),
                oauth2::RequestTokenError::Other(_) => ExchangeErrorDetail::Other,
                oauth2::RequestTokenError::Request(_) => ExchangeErrorDetail::Request,
            } })
        },
    }
}

/// Relies on uuid's `Uuid::new_v4` and its `Display`: a fresh random
/// (version 4) identifier, rendered in the hyphenated form, which is
/// always 36 characters. The value is random; nothing more can be
/// promised of it.
#[verifier::external_body]
pub(crate) fn new_session_id() -> (r: String)
    ensures
        r@.len() == 36,
{
    uuid::Uuid::new_v4().to_string()
}

} // verus!
