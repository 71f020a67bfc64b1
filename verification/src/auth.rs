//! Authorization-server exchanges: the response shapes of the token
//! endpoint, the Basic-auth header, the consent URL the browser opens,
//! and the exact form bodies of the two grants.
//!
//! Everything here is request assembly and response modelling; the binary
//! performs the HTTP itself.

use vstd::prelude::*;

use base64::Engine;

verus! {

/// The query payload of the redirect callback: the one-time authorization
/// code the consent step produced.
#[derive(Debug, Clone)]
pub struct SpotifyAuthInfo {
    pub code: String,
}

/// The token endpoint's response to an authorization-code grant.
#[derive(Debug, Clone)]
pub struct SpotifyAccessToken {
    pub access_token: String,
    pub token_type: String,
    pub scope: String,
    pub expires_in: i64,
    pub refresh_token: String,
}

/// The token endpoint's response to a refresh grant. The server may omit
/// a new refresh token; the stored one is then retained.
#[derive(Debug, Clone)]
pub struct SpotifyRefreshToken {
    pub access_token: String,
    pub token_type: String,
    pub scope: String,
    pub expires_in: i64,
    pub refresh_token: Option<String>,
}

/// What base64 makes of a string's bytes under the standard alphabet with
/// padding; a function of the input alone.
pub uninterp spec fn base64_of(s: Seq<char>) -> Seq<char>;

/// Relies on base64's `Engine::encode` with the `STANDARD` engine: the
/// standard-alphabet, padded encoding of the argument's bytes, a function
/// of the argument alone.
#[verifier::external_body]
fn base64_encode(s: &str) -> (r: String)
    ensures
        r@ == base64_of(s@),
        s@.len() == 0 ==> r@.len() == 0,
{
    base64::engine::general_purpose::STANDARD.encode(s.as_bytes())
}

/// The value of the `Authorization` header sent to the token endpoint:
/// `Basic` followed by the base64 encoding of `id:secret`.
pub open spec fn spec_basic_auth(client_id: Seq<char>, secret: Seq<char>) -> Seq<char> {
    "Basic "@ + base64_of(client_id + ":"@ + secret)
}

/// Builds the Basic-auth header value for the given client credentials.
pub fn basic_auth(client_id: &str, secret: &str) -> (r: String)
    ensures
        r@ == spec_basic_auth(client_id@, secret@),
{
    let mut to_encode = String::new();
    to_encode.append(client_id);
    to_encode.append(":");
    to_encode.append(secret);
    proof {
        assert(to_encode@ =~= client_id@ + ":"@ + secret@);
    }
    let encoded = base64_encode(to_encode.as_str());
    let mut out = String::new();
    out.append("Basic ");
    out.append(encoded.as_str());
    proof {
        assert(out@ =~= "Basic "@ + base64_of(client_id@ + ":"@ + secret@));
    }
    out
}

/// The fixed configuration of an authorization attempt: the credentials,
/// where the redirect listener sits, and the capability scope requested.
#[derive(Debug, Clone)]
pub struct AuthConfig {
    pub client_id: String,
    pub client_secret: String,
    pub redirect_uri: String,
    pub port: u16,
    pub scope: String,
}

/// The loopback port the redirect listener binds.
pub open spec fn spec_redirect_port() -> u16 {
    8888
}

/// The redirect URI registered with the authorization server.
pub open spec fn spec_redirect_uri() -> Seq<char> {
    "http://localhost:8888/callback/spotify"@
}

/// The space-separated capability list every authorization asks for:
/// playlist reads, the currently-playing read, and playback-state writes.
pub open spec fn spec_scope() -> Seq<char> {
    "playlist-read-private playlist-read-collaborative user-read-currently-playing user-modify-playback-state"@
}

impl AuthConfig {
    /// The configuration used for every flow: the given credentials with
    /// the fixed redirect address and the fixed scope.
    pub fn new(client_id: String, client_secret: String) -> (c: AuthConfig)
        ensures
            c.client_id == client_id,
            c.client_secret == client_secret,
            c.redirect_uri@ == spec_redirect_uri(),
            c.port == spec_redirect_port(),
            c.scope@ == spec_scope(),
    {
        AuthConfig {
            client_id,
            client_secret,
            redirect_uri: String::from_str("http://localhost:8888/callback/spotify"),
            port: 8888,
            scope: String::from_str(
                "playlist-read-private playlist-read-collaborative user-read-currently-playing user-modify-playback-state",
            ),
        }
    }
}

/// The token endpoint.
pub open spec fn spec_token_endpoint() -> Seq<char> {
    "https://accounts.spotify.com/api/token"@
}

/// Builds the token endpoint URL.
pub fn token_endpoint() -> (r: String)
    ensures
        r@ == spec_token_endpoint(),
{
    String::from_str("https://accounts.spotify.com/api/token")
}

/// The consent URL the browser opens: the authorize endpoint with
/// `response_type=code` and the client id, scope and redirect URI of the
/// attempt.
pub open spec fn spec_consent_url(client_id: Seq<char>, scope: Seq<char>, redirect_uri: Seq<char>) -> Seq<char> {
    "https://accounts.spotify.com/authorize?response_type=code&client_id="@ + client_id
        + "&scope="@ + scope + "&redirect_uri="@ + redirect_uri
}

/// Builds the consent URL for the given attempt.
pub fn consent_url(config: &AuthConfig) -> (r: String)
    ensures
        r@ == spec_consent_url(config.client_id@, config.scope@, config.redirect_uri@),
{
    let mut out = String::new();
    out.append("https://accounts.spotify.com/authorize?response_type=code&client_id=");
    out.append(config.client_id.as_str());
    out.append("&scope=");
    out.append(config.scope.as_str());
    out.append("&redirect_uri=");
    out.append(config.redirect_uri.as_str());
    proof {
        assert(out@ =~= spec_consent_url(config.client_id@, config.scope@, config.redirect_uri@));
    }
    out
}

/// A fully assembled POST to the token endpoint: the URL, the Basic-auth
/// header value, and the `application/x-www-form-urlencoded` body as
/// key-value pairs, in order.
#[derive(Debug)]
pub struct TokenRequest {
    pub url: String,
    pub authorization: String,
    pub params: Vec<(String, String)>,
}

/// The shape of the authorization-code exchange POST: the token
/// endpoint, the client's Basic-auth header, and the form body `code`,
/// `redirect_uri`, `grant_type=authorization_code`, in order.
pub open spec fn is_exchange_request(r: TokenRequest, config: AuthConfig, code: Seq<char>) -> bool {
    &&& r.url@ == spec_token_endpoint()
    &&& r.authorization@ == spec_basic_auth(config.client_id@, config.client_secret@)
    &&& r.params@.len() == 3
    &&& r.params@[0].0@ == "code"@ && r.params@[0].1@ == code
    &&& r.params@[1].0@ == "redirect_uri"@ && r.params@[1].1 == config.redirect_uri
    &&& r.params@[2].0@ == "grant_type"@ && r.params@[2].1@ == "authorization_code"@
}

/// The request exchanging an authorization code for the initial token:
/// `grant_type=authorization_code` with the code and the redirect URI,
/// authorized by the client's Basic-auth header.
pub fn token_exchange_request(config: &AuthConfig, code: &str) -> (r: TokenRequest)
    ensures
        is_exchange_request(r, *config, code@),
{
    let mut params: Vec<(String, String)> = Vec::new();
    params.push((String::from_str("code"), String::from_str(code)));
    params.push((String::from_str("redirect_uri"), config.redirect_uri.clone()));
    params.push((String::from_str("grant_type"), String::from_str("authorization_code")));
    TokenRequest {
        url: token_endpoint(),
        authorization: basic_auth(config.client_id.as_str(), config.client_secret.as_str()),
        params,
    }
}

/// The shape of the refresh POST: the token endpoint, the same
/// Basic-auth header, and the form body `refresh_token`,
/// `grant_type=refresh_token`, in order.
pub open spec fn is_refresh_request(r: TokenRequest, config: AuthConfig, refresh_token: Seq<char>) -> bool {
    &&& r.url@ == spec_token_endpoint()
    &&& r.authorization@ == spec_basic_auth(config.client_id@, config.client_secret@)
    &&& r.params@.len() == 2
    &&& r.params@[0].0@ == "refresh_token"@ && r.params@[0].1@ == refresh_token
    &&& r.params@[1].0@ == "grant_type"@ && r.params@[1].1@ == "refresh_token"@
}

/// The request exchanging a stored refresh token for a new access token:
/// `grant_type=refresh_token`, authorized by the same Basic-auth scheme.
pub fn refresh_request(config: &AuthConfig, refresh_token: &str) -> (r: TokenRequest)
    ensures
        is_refresh_request(r, *config, refresh_token@),
{
    let mut params: Vec<(String, String)> = Vec::new();
    params.push((String::from_str("refresh_token"), String::from_str(refresh_token)));
    params.push((String::from_str("grant_type"), String::from_str("refresh_token")));
    TokenRequest {
        url: token_endpoint(),
        authorization: basic_auth(config.client_id.as_str(), config.client_secret.as_str()),
        params,
    }
}

} // verus!
