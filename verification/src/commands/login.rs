//! Login: API-key validation, the OAuth authorization-code flow with PKCE
//! (verifier, challenge, state, authorization URL, callback checks) and the
//! login status.
use crate::codec::{
    base64_encodable, base64_url_nopad, encode_base64_url_nopad, hex_encode, hex_lower, sha256,
    sha256_digest,
};
use crate::config::app_config::{expiry, logged_in_at, opt_str, with_access_token, AppConfig, ConfigView};
use crate::crypto::random_bytes;
use crate::text::{chars_of, concat, is_prefix, is_ws, is_whitespace, owned, starts_with, string_of};
use vstd::prelude::*;
use vstd::utf8::encode_utf8;

verus! {

/// OAuth client id of the CLI.
pub const CLIENT_ID: &'static str = "sessioncast-cli";

/// Scopes the CLI asks for.
pub const DEFAULT_SCOPES: &'static str = "openid profile email";

/// Why a login failed.
#[derive(Debug, Clone)]
pub enum LoginError {
    /// The key starts with neither `sk-` nor `agt_`.
    InvalidKeyFormat,
    /// The authorization server reported this error.
    AuthenticationFailed(String),
    /// The callback's state is not the one sent.
    StateMismatch,
    /// The callback carries no authorization code.
    NoAuthorizationCode,
    /// The callback request line has no target.
    InvalidRequest,
    /// A URL could not be parsed.
    InvalidUrl,
}

/// What kind of credential a key is.
#[derive(Debug, Clone, Copy, PartialEq, Eq)]
pub enum KeyKind {
    /// `agt_...`: an agent token.
    AgentToken,
    /// `sk-...`: an API key.
    ApiKey,
}

/// The kind of a key by its prefix; any other key is refused.
pub open spec fn key_kind(key: Seq<char>) -> Option<KeyKind> {
    if is_prefix("agt_"@, key) {
        Some(KeyKind::AgentToken)
    } else if is_prefix("sk-"@, key) {
        Some(KeyKind::ApiKey)
    } else {
        None
    }
}

/// Stores a key given on the command line: `agt_` keys as the agent token,
/// `sk-` keys as the API key; other keys are refused and nothing changes.
pub fn manual_login(config: &mut AppConfig, api_key: &str) -> (r: Result<KeyKind, LoginError>)
    ensures
        match key_kind(api_key@) {
            Some(KeyKind::AgentToken) => r matches Ok(KeyKind::AgentToken) && final(config)@ == (
            ConfigView { agent_token: Some(api_key@), ..old(config)@ }),
            Some(KeyKind::ApiKey) => r matches Ok(KeyKind::ApiKey) && final(config)@ == (ConfigView {
                api_key: Some(api_key@),
                ..old(config)@
            }),
            None => r matches Err(LoginError::InvalidKeyFormat) && final(config)@ == old(config)@,
        },
{
    let k = chars_of(api_key);
    let is_sk = starts_with(&k, &chars_of("sk-"));
    let is_agt = starts_with(&k, &chars_of("agt_"));
    if !is_sk && !is_agt {
        return Err(LoginError::InvalidKeyFormat);
    }
    if is_agt {
        config.set_agent_token(owned(api_key));
        Ok(KeyKind::AgentToken)
    } else {
        config.set_api_key(owned(api_key));
        Ok(KeyKind::ApiKey)
    }
}

/// A PKCE code verifier: 32 random bytes in unpadded URL-safe Base64.
pub fn generate_code_verifier() -> (v: String)
    ensures
        exists|bytes: Seq<u8>| bytes.len() == 32 && v@ == base64_url_nopad(bytes),
{
    let bytes = random_bytes(32);
    encode_base64_url_nopad(bytes.as_slice())
}

/// The PKCE S256 challenge of a verifier: its SHA-256 digest in unpadded
/// URL-safe Base64.
pub fn generate_code_challenge(verifier: &str) -> (c: String)
    ensures
        c@ == base64_url_nopad(sha256_digest(encode_utf8(verifier@))),
{
    let digest = sha256(verifier.as_bytes());
    encode_base64_url_nopad(digest.as_slice())
}

/// An OAuth state value: 16 random bytes in lowercase hexadecimal.
pub fn generate_state() -> (s: String)
    ensures
        exists|bytes: Seq<u8>| bytes.len() == 16 && s@ == hex_lower(bytes),
{
    let bytes = random_bytes(16);
    hex_encode(bytes.as_slice())
}

/// The views of a sequence of string pairs.
pub open spec fn pair_views(v: Seq<(String, String)>) -> Seq<(Seq<char>, Seq<char>)> {
    v.map_values(|p: (String, String)| (p.0@, p.1@))
}

/// What `url::Url::parse_with_params` gives for `base` and the pairs, as a
/// string; nothing when `base` is not an absolute URL.
pub uninterp spec fn url_with_params(base: Seq<char>, pairs: Seq<(Seq<char>, Seq<char>)>) -> Option<
    Seq<char>,
>;

/// `url::Url::parse_with_params(base, pairs)`, as a string.
#[verifier::external_body]
fn parse_with_params(base: &str, pairs: &Vec<(String, String)>) -> (r: Option<String>)
    ensures
        opt_str(r) == url_with_params(base@, pair_views(pairs@)),
{
    url::Url::parse_with_params(base, pairs.iter()).ok().map(|u| u.to_string())
}

/// What `url::Url::parse(url)` followed by `query_pairs` gives: the decoded
/// query pairs in order; nothing when the URL does not parse.
pub uninterp spec fn url_query_pairs(url: Seq<char>) -> Option<Seq<(Seq<char>, Seq<char>)>>;

/// `url::Url::parse(url)` and its `query_pairs`, as owned strings.
#[verifier::external_body]
fn query_pairs(url: &str) -> (r: Option<Vec<(String, String)>>)
    ensures
        match url_query_pairs(url@) {
            Some(ps) => r matches Some(v) && pair_views(v@) == ps,
            None => r is None,
        },
{
    url::Url::parse(url).ok().map(|u| u.query_pairs().map(|(k, v)| (k.to_string(), v.to_string())).collect())
}

/// The query of the authorization request.
pub open spec fn authorize_params(redirect_uri: Seq<char>, state: Seq<char>, challenge: Seq<char>) -> Seq<(Seq<char>, Seq<char>)> {
    seq![
        ("client_id"@, "sessioncast-cli"@),
        ("redirect_uri"@, redirect_uri),
        ("response_type"@, "code"@),
        ("scope"@, "openid profile email"@),
        ("state"@, state),
        ("code_challenge"@, challenge),
        ("code_challenge_method"@, "S256"@),
    ]
}

/// The authorization URL: `{auth_url}/oauth/authorize` with the client id,
/// redirect URI, response type, scopes, state and S256 challenge.
pub fn authorization_url(auth_url: &str, redirect_uri: &str, state: &str, code_challenge: &str) -> (r:
    Result<String, LoginError>)
    ensures
        match url_with_params(auth_url@ + "/oauth/authorize"@, authorize_params(redirect_uri@, state@, code_challenge@)) {
            Some(u) => r matches Ok(s) && s@ == u,
            None => r matches Err(LoginError::InvalidUrl),
        },
{
    let base = concat(auth_url, "/oauth/authorize");
    let pairs = vec![
        (owned("client_id"), owned(CLIENT_ID)),
        (owned("redirect_uri"), owned(redirect_uri)),
        (owned("response_type"), owned("code")),
        (owned("scope"), owned(DEFAULT_SCOPES)),
        (owned("state"), owned(state)),
        (owned("code_challenge"), owned(code_challenge)),
        (owned("code_challenge_method"), owned("S256")),
    ];
    assert(pair_views(pairs@) =~= authorize_params(redirect_uri@, state@, code_challenge@));
    match parse_with_params(base.as_str(), &pairs) {
        Some(u) => Ok(u),
        None => Err(LoginError::InvalidUrl),
    }
}

/// The redirect URI of the local callback server on `port`.
pub fn redirect_uri(port: u16) -> (s: String)
    ensures
        s@ == "http://127.0.0.1:"@ + crate::text::decimal(port as nat) + "/callback"@,
{
    let p = crate::text::usize_to_string(port as usize);
    let mut s = concat("http://127.0.0.1:", p.as_str());
    s.append("/callback");
    s
}

/// The words still to come when `cur` has been read since the last
/// whitespace and `rest` is unread.
pub open spec fn words_from(cur: Seq<char>, rest: Seq<char>) -> Seq<Seq<char>>
    decreases rest.len(),
{
    if rest.len() == 0 {
        if cur.len() == 0 {
            seq![]
        } else {
            seq![cur]
        }
    } else if is_ws(rest[0]) {
        (if cur.len() == 0 {
            seq![]
        } else {
            seq![cur]
        }) + words_from(seq![], rest.drop_first())
    } else {
        words_from(cur.push(rest[0]), rest.drop_first())
    }
}

/// `str::split_whitespace`: the maximal runs of non-whitespace characters.
pub open spec fn words(s: Seq<char>) -> Seq<Seq<char>> {
    words_from(seq![], s)
}

/// `str::split_whitespace`.
pub fn split_whitespace(s: &str) -> (out: Vec<Vec<char>>)
    ensures
        out@.len() == words(s@).len(),
        forall|k: int| 0 <= k < out@.len() ==> #[trigger] out@[k]@ == words(s@)[k],
{
    let cs = chars_of(s);
    let mut out: Vec<Vec<char>> = Vec::new();
    let mut cur: Vec<char> = Vec::new();
    let n = cs.len();
    let ghost done: Seq<Seq<char>> = seq![];
    assert(cs@.skip(0) =~= cs@);
    assert(cur@ =~= seq![]);
    assert(words(s@) =~= done + words_from(cur@, cs@.skip(0)));
    for i in 0..n
        invariant
            n == cs@.len(),
            cs@ == s@,
            done.len() == out@.len(),
            forall|k: int| 0 <= k < out@.len() ==> #[trigger] out@[k]@ == done[k],
            words(s@) == done + words_from(cur@, cs@.skip(i as int)),
    {
        let c = cs[i];
        proof {
            assert(cs@.skip(i as int)[0] == c);
            assert(cs@.skip(i as int).drop_first() =~= cs@.skip(i + 1));
        }
        if is_whitespace(c) {
            if cur.len() > 0 {
                proof {
                    done = done.push(cur@);
                    assert(words(s@) =~= done + words_from(seq![], cs@.skip(i + 1)));
                }
                out.push(cur);
                cur = Vec::new();
            } else {
                assert(words(s@) =~= done + words_from(seq![], cs@.skip(i + 1)));
                cur = Vec::new();
            }
        } else {
            cur.push(c);
        }
    }
    proof {
        assert(cs@.skip(n as int) =~= seq![]);
    }
    if cur.len() > 0 {
        proof {
            done = done.push(cur@);
        }
        out.push(cur);
    }
    assert(words(s@) =~= done);
    out
}

/// The parameters that the authorization server sent to the callback.
#[derive(Debug, Clone)]
pub struct CallbackResult {
    pub code: Option<String>,
    pub state: Option<String>,
    pub error: Option<String>,
    pub error_description: Option<String>,
}

/// The value of the last pair with key `key` (collecting the pairs into a map
/// keeps the last).
pub open spec fn last_value(pairs: Seq<(Seq<char>, Seq<char>)>, key: Seq<char>) -> Option<Seq<char>>
    decreases pairs.len(),
{
    if pairs.len() == 0 {
        None
    } else if pairs.last().0 == key {
        Some(pairs.last().1)
    } else {
        last_value(pairs.drop_last(), key)
    }
}

fn last_value_exec(pairs: &Vec<(String, String)>, key: &str) -> (r: Option<String>)
    ensures
        opt_str(r) == last_value(pair_views(pairs@), key@),
{
    let k = owned(key);
    let mut j = pairs.len();
    let ghost pv = pair_views(pairs@);
    assert(pv.take(j as int) =~= pv);
    while j > 0
        invariant
            j <= pairs@.len(),
            pv == pair_views(pairs@),
            k@ == key@,
            last_value(pv, key@) == last_value(pv.take(j as int), key@),
        decreases j,
    {
        assert(pv.take(j as int).drop_last() =~= pv.take(j - 1));
        assert(pv.take(j as int).last() == (pairs@[j - 1].0@, pairs@[j - 1].1@));
        if pairs[j - 1].0 == k {
            return Some(owned(pairs[j - 1].1.as_str()));
        }
        j = j - 1;
    }
    None
}

/// The callback parameters carried by an HTTP request line
/// (`GET /callback?code=...&state=... HTTP/1.1`).
pub open spec fn callback_of(request_line: Seq<char>) -> Option<Option<Seq<(Seq<char>, Seq<char>)>>> {
    let ws = words(request_line);
    if ws.len() < 2 {
        None
    } else {
        Some(url_query_pairs("http://localhost"@ + ws[1]))
    }
}

/// Reads the callback parameters from the request line of the browser's
/// redirect: the request target's query, decoded.
pub fn parse_callback_request(request_line: &str) -> (r: Result<CallbackResult, LoginError>)
    ensures
        match callback_of(request_line@) {
            None => r matches Err(LoginError::InvalidRequest),
            Some(None) => r matches Err(LoginError::InvalidUrl),
            Some(Some(pairs)) => r matches Ok(c) && opt_str(c.code) == last_value(pairs, "code"@)
                && opt_str(c.state) == last_value(pairs, "state"@) && opt_str(c.error) == last_value(
                pairs,
                "error"@,
            ) && opt_str(c.error_description) == last_value(pairs, "error_description"@),
        },
{
    let ws = split_whitespace(request_line);
    if ws.len() < 2 {
        return Err(LoginError::InvalidRequest);
    }
    let target = string_of(&ws[1]);
    let url = concat("http://localhost", target.as_str());
    match query_pairs(url.as_str()) {
        None => Err(LoginError::InvalidUrl),
        Some(pairs) => Ok(
            CallbackResult {
                code: last_value_exec(&pairs, "code"),
                state: last_value_exec(&pairs, "state"),
                error: last_value_exec(&pairs, "error"),
                error_description: last_value_exec(&pairs, "error_description"),
            },
        ),
    }
}

/// The page the callback server answers with: an error page when the
/// server reported an error, a success page otherwise.
pub fn callback_response(result: &CallbackResult) -> (s: &'static str)
    ensures
        result.error is Some ==> s@ == "HTTP/1.1 400 Bad Request\r\nContent-Type: text/html\r\n\r\n<h1>Authentication Failed</h1><p>You can close this window.</p>"@,
        result.error is None ==> s@ == "HTTP/1.1 200 OK\r\nContent-Type: text/html\r\n\r\n<h1>Authentication Successful</h1><p>You can close this window.</p>"@,
{
    if result.error.is_some() {
        "HTTP/1.1 400 Bad Request\r\nContent-Type: text/html\r\n\r\n<h1>Authentication Failed</h1><p>You can close this window.</p>"
    } else {
        "HTTP/1.1 200 OK\r\nContent-Type: text/html\r\n\r\n<h1>Authentication Successful</h1><p>You can close this window.</p>"
    }
}

/// Accepts a callback only without an error, with the state that was sent,
/// and with a code; returns the code.
pub fn check_callback(result: &CallbackResult, expected_state: &str) -> (r: Result<String, LoginError>)
    ensures
        match result.error {
            Some(e) => r matches Err(LoginError::AuthenticationFailed(m)) && m@ == e@,
            None => if opt_str(result.state) != Some(expected_state@) {
                r matches Err(LoginError::StateMismatch)
            } else {
                match result.code {
                    Some(c) => r matches Ok(code) && code@ == c@,
                    None => r matches Err(LoginError::NoAuthorizationCode),
                }
            },
        },
{
    if let Some(e) = &result.error {
        return Err(LoginError::AuthenticationFailed(owned(e.as_str())));
    }
    let state_ok = match &result.state {
        Some(s) => crate::config::same_chars(&chars_of(s.as_str()), &chars_of(expected_state)),
        None => false,
    };
    if !state_ok {
        return Err(LoginError::StateMismatch);
    }
    match &result.code {
        Some(c) => Ok(owned(c.as_str())),
        None => Err(LoginError::NoAuthorizationCode),
    }
}

/// The token endpoint of an auth server.
pub fn token_endpoint(auth_url: &str) -> (s: String)
    ensures
        s@ == auth_url@ + "/oauth/token"@,
{
    concat(auth_url, "/oauth/token")
}

/// The endpoint that issues agent tokens.
pub fn agent_token_endpoint(api_url: &str) -> (s: String)
    ensures
        s@ == api_url@ + "/api/tokens/generate"@,
{
    concat(api_url, "/api/tokens/generate")
}

/// The form of the authorization-code exchange.
pub open spec fn token_form(code: Seq<char>, redirect_uri: Seq<char>, verifier: Seq<char>) -> Seq<(Seq<char>, Seq<char>)> {
    seq![
        ("grant_type"@, "authorization_code"@),
        ("client_id"@, "sessioncast-cli"@),
        ("code"@, code),
        ("redirect_uri"@, redirect_uri),
        ("code_verifier"@, verifier),
    ]
}

/// The form that exchanges an authorization code for tokens.
pub fn token_request_form(code: &str, redirect_uri: &str, code_verifier: &str) -> (f: Vec<(String, String)>)
    ensures
        pair_views(f@) == token_form(code@, redirect_uri@, code_verifier@),
{
    let f = vec![
        (owned("grant_type"), owned("authorization_code")),
        (owned("client_id"), owned(CLIENT_ID)),
        (owned("code"), owned(code)),
        (owned("redirect_uri"), owned(redirect_uri)),
        (owned("code_verifier"), owned(code_verifier)),
    ];
    assert(pair_views(f@) =~= token_form(code@, redirect_uri@, code_verifier@));
    f
}

/// The configuration after a browser login stored its results, the access
/// token being issued at `now`: the access token (left out when its expiry
/// does not fit in 64 bits), the refresh token when one came, and the agent
/// token and machine id when an agent token was issued.
pub open spec fn login_stored(
    c: ConfigView,
    access_token: Seq<char>,
    expires_in: u64,
    now: u64,
    refresh_token: Option<Seq<char>>,
    agent: Option<(Seq<char>, Seq<char>)>,
) -> ConfigView {
    let c1 = if expiry(now, expires_in) <= u64::MAX {
        with_access_token(c, access_token, expires_in, now)
    } else {
        c
    };
    let c2 = match refresh_token {
        Some(r) => ConfigView { refresh_token: Some(r), ..c1 },
        None => c1,
    };
    match agent {
        Some((token, machine_id)) => ConfigView {
            agent_token: Some(token),
            machine_id: Some(machine_id),
            ..c2
        },
        None => c2,
    }
}

/// The views of an issued agent token and machine id.
pub open spec fn agent_views(agent: Option<(String, String)>) -> Option<(Seq<char>, Seq<char>)> {
    match agent {
        Some((t, m)) => Some((t@, m@)),
        None => None,
    }
}

/// Stores what a browser login obtained: the access token, valid
/// `expires_in` seconds from now by the system clock; the refresh token, if
/// the server sent one; and the agent token and machine id, if one was
/// issued.
pub fn store_login(
    config: &mut AppConfig,
    access_token: String,
    expires_in: u64,
    refresh_token: Option<String>,
    agent: Option<(String, String)>,
)
    ensures
        exists|now: u64|
            final(config)@ == login_stored(
                old(config)@,
                access_token@,
                expires_in,
                now,
                opt_str(refresh_token),
                agent_views(agent),
            ),
{
    let ghost c0 = config@;
    let ghost tv = access_token@;
    config.set_access_token(access_token, expires_in);
    let ghost now = choose|now: u64|
        {
            ||| expiry(now, expires_in) <= u64::MAX && config@ == with_access_token(
                c0,
                tv,
                expires_in,
                now,
            )
            ||| expiry(now, expires_in) > u64::MAX && config@ == c0
        };
    let ghost rv = opt_str(refresh_token);
    let ghost av = agent_views(agent);
    match refresh_token {
        Some(r) => config.set_refresh_token(r),
        None => {},
    }
    match agent {
        Some((token, machine_id)) => {
            config.set_agent_token(token);
            config.set_machine_id(machine_id);
        },
        None => {},
    }
    assert(config@ == login_stored(c0, tv, expires_in, now, rv, av));
}

/// How the user is logged in.
#[derive(Debug, Clone, Copy, PartialEq, Eq)]
pub enum LoginStatus {
    NotLoggedIn,
    /// With a live OAuth access token.
    OAuth,
    /// With an API key or an agent token.
    KeyOrAgentToken,
}

/// The login status at time `now`.
pub open spec fn status_at(c: ConfigView, now: u64) -> LoginStatus {
    if !logged_in_at(c, now) {
        LoginStatus::NotLoggedIn
    } else if crate::config::app_config::access_token_at(c, now) is Some {
        LoginStatus::OAuth
    } else {
        LoginStatus::KeyOrAgentToken
    }
}

/// The login status at time `now` (ms since the epoch).
pub fn login_status_at(config: &AppConfig, now: u64) -> (s: LoginStatus)
    ensures
        s == status_at(config@, now),
{
    if !config.is_logged_in_at(now) {
        LoginStatus::NotLoggedIn
    } else if config.access_token_at(now).is_some() {
        LoginStatus::OAuth
    } else {
        LoginStatus::KeyOrAgentToken
    }
}

/// The login status by the system clock.
pub fn status(config: &AppConfig) -> (s: LoginStatus)
    ensures
        exists|now: u64| s == status_at(config@, now),
{
    let now = crate::config::app_config::now_millis();
    login_status_at(config, now)
}

/// After a successful manual login the configuration is logged in at any
/// time.
pub proof fn lemma_manual_login_logs_in(c: ConfigView, key: Seq<char>, now: u64)
    requires
        key_kind(key) is Some,
    ensures
        key_kind(key) == Some(KeyKind::AgentToken) ==> logged_in_at(
            ConfigView { agent_token: Some(key), ..c },
            now,
        ),
        key_kind(key) == Some(KeyKind::ApiKey) ==> logged_in_at(ConfigView { api_key: Some(key), ..c }, now),
{
}

} // verus!
