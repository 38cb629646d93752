//! Application settings kept in the user's configuration directory: service
//! URLs, credentials and first-run state.
use crate::text::owned;
use std::time::{Duration, SystemTime, SystemTimeError};
use vstd::prelude::*;

verus! {

#[verifier::external_type_specification]
#[verifier::external_body]
pub struct ExSystemTime(SystemTime);

#[verifier::external_type_specification]
#[verifier::external_body]
pub struct ExSystemTimeError(SystemTimeError);

/// `SystemTime::now`: the current time of the system clock.
#[verifier::external_body]
fn clock_now() -> (t: SystemTime) {
    SystemTime::now()
}

/// `SystemTime::duration_since(UNIX_EPOCH)`: time elapsed since the epoch, or
/// an error when the clock reads earlier than the epoch.
#[verifier::external_body]
fn since_epoch(t: &SystemTime) -> (d: Result<Duration, SystemTimeError>) {
    t.duration_since(std::time::UNIX_EPOCH)
}

/// `Duration::as_millis`: whole milliseconds of a duration.
#[verifier::external_body]
fn whole_millis(d: &Duration) -> (ms: u128) {
    d.as_millis()
}

/// Milliseconds since the Unix epoch by the system clock, truncated to 64
/// bits; 0 when the clock reads earlier than the epoch. Nothing is known of
/// its value.
pub fn now_millis() -> (ms: u64) {
    match since_epoch(&clock_now()) {
        Ok(d) => {
            let ms = whole_millis(&d);
            #[verifier::truncate]
            (ms as u64)
        },
        Err(_) => 0,
    }
}

/// API URL used until another is set.
pub fn default_api_url() -> (s: String)
    ensures
        s@ == "https://api.sessioncast.io"@,
{
    owned("https://api.sessioncast.io")
}

/// Auth URL used until another is set.
pub fn default_auth_url() -> (s: String)
    ensures
        s@ == "https://auth.sessioncast.io"@,
{
    owned("https://auth.sessioncast.io")
}

/// Relay URL used until another is set.
pub fn default_relay_url() -> (s: String)
    ensures
        s@ == "wss://relay.sessioncast.io/ws"@,
{
    owned("wss://relay.sessioncast.io/ws")
}

/// Application configuration stored in the config directory.
#[derive(Debug, Clone)]
pub struct AppConfig {
    /// API key (legacy)
    pub api_key: Option<String>,
    /// API URL
    pub api_url: String,
    /// Auth URL
    pub auth_url: String,
    /// Relay URL
    pub relay_url: String,
    /// OAuth access token
    pub access_token: Option<String>,
    /// OAuth refresh token
    pub refresh_token: Option<String>,
    /// Token expiration timestamp (milliseconds since the epoch)
    pub token_expires_at: Option<u64>,
    /// Agent token (for relay connection)
    pub agent_token: Option<String>,
    /// Machine ID
    pub machine_id: Option<String>,
    /// First run welcome flag
    pub has_seen_welcome: bool,
}

/// The value of an `AppConfig`.
pub struct ConfigView {
    pub api_key: Option<Seq<char>>,
    pub api_url: Seq<char>,
    pub auth_url: Seq<char>,
    pub relay_url: Seq<char>,
    pub access_token: Option<Seq<char>>,
    pub refresh_token: Option<Seq<char>>,
    pub token_expires_at: Option<u64>,
    pub agent_token: Option<Seq<char>>,
    pub machine_id: Option<Seq<char>>,
    pub has_seen_welcome: bool,
}

/// The view of an optional string.
pub open spec fn opt_str(s: Option<String>) -> Option<Seq<char>> {
    match s {
        Some(v) => Some(v@),
        None => None,
    }
}

/// The view of an optional string slice.
pub open spec fn opt_slice(s: Option<&str>) -> Option<Seq<char>> {
    match s {
        Some(v) => Some(v@),
        None => None,
    }
}

impl View for AppConfig {
    type V = ConfigView;

    open spec fn view(&self) -> ConfigView {
        ConfigView {
            api_key: opt_str(self.api_key),
            api_url: self.api_url@,
            auth_url: self.auth_url@,
            relay_url: self.relay_url@,
            access_token: opt_str(self.access_token),
            refresh_token: opt_str(self.refresh_token),
            token_expires_at: self.token_expires_at,
            agent_token: opt_str(self.agent_token),
            machine_id: opt_str(self.machine_id),
            has_seen_welcome: self.has_seen_welcome,
        }
    }
}

/// The configuration before anything is set.
pub open spec fn default_config() -> ConfigView {
    ConfigView {
        api_key: None,
        api_url: "https://api.sessioncast.io"@,
        auth_url: "https://auth.sessioncast.io"@,
        relay_url: "wss://relay.sessioncast.io/ws"@,
        access_token: None,
        refresh_token: None,
        token_expires_at: None,
        agent_token: None,
        machine_id: None,
        has_seen_welcome: false,
    }
}

/// The OAuth access token at time `now` (ms since the epoch): present only
/// while it has an expiry that lies after `now`.
pub open spec fn access_token_at(c: ConfigView, now: u64) -> Option<Seq<char>> {
    match (c.access_token, c.token_expires_at) {
        (Some(token), Some(expires_at)) => if now < expires_at {
            Some(token)
        } else {
            None
        },
        _ => None,
    }
}

/// Logged in at time `now`: an API key, a live access token or an agent token.
pub open spec fn logged_in_at(c: ConfigView, now: u64) -> bool {
    c.api_key is Some || access_token_at(c, now) is Some || c.agent_token is Some
}

/// Expiry of an access token issued at `now` for `expires_in` seconds.
pub open spec fn expiry(now: u64, expires_in: u64) -> int {
    now + expires_in * 1000
}

/// The configuration after an access token valid `expires_in` seconds from
/// `now` was stored.
pub open spec fn with_access_token(c: ConfigView, token: Seq<char>, expires_in: u64, now: u64) -> ConfigView {
    ConfigView {
        access_token: Some(token),
        token_expires_at: Some(expiry(now, expires_in) as u64),
        ..c
    }
}

/// The configuration after the credentials were cleared.
pub open spec fn without_auth(c: ConfigView) -> ConfigView {
    ConfigView {
        api_key: None,
        access_token: None,
        refresh_token: None,
        token_expires_at: None,
        agent_token: None,
        ..c
    }
}

impl Default for AppConfig {
    fn default() -> (c: Self)
        ensures
            c@ == default_config(),
    {
        AppConfig {
            api_key: None,
            api_url: default_api_url(),
            auth_url: default_auth_url(),
            relay_url: default_relay_url(),
            access_token: None,
            refresh_token: None,
            token_expires_at: None,
            agent_token: None,
            machine_id: None,
            has_seen_welcome: false,
        }
    }
}

/// The string of an optional `String`, borrowed.
fn as_opt_str(s: &Option<String>) -> (r: Option<&str>)
    ensures
        opt_slice(r) == opt_str(*s),
{
    match s {
        Some(v) => Some(v.as_str()),
        None => None,
    }
}

impl AppConfig {
    /// The API key, if one is stored.
    pub fn api_key(&self) -> (r: Option<&str>)
        ensures
            opt_slice(r) == self@.api_key,
    {
        as_opt_str(&self.api_key)
    }

    /// The Platform API URL.
    pub fn api_url(&self) -> (r: &str)
        ensures
            r@ == self@.api_url,
    {
        self.api_url.as_str()
    }

    /// The auth server URL.
    pub fn auth_url(&self) -> (r: &str)
        ensures
            r@ == self@.auth_url,
    {
        self.auth_url.as_str()
    }

    /// The relay URL.
    pub fn relay_url(&self) -> (r: &str)
        ensures
            r@ == self@.relay_url,
    {
        self.relay_url.as_str()
    }

    /// The access token if it has not expired at time `now` (ms since the
    /// epoch).
    pub fn access_token_at(&self, now: u64) -> (r: Option<&str>)
        ensures
            opt_slice(r) == access_token_at(self@, now),
    {
        match (&self.access_token, self.token_expires_at) {
            (Some(token), Some(expires_at)) => {
                if now < expires_at {
                    Some(token.as_str())
                } else {
                    None
                }
            },
            _ => None,
        }
    }

    /// The access token if it has not expired by the system clock.
    pub fn access_token(&self) -> (r: Option<&str>)
        ensures
            exists|now: u64| opt_slice(r) == access_token_at(self@, now),
            r matches Some(t) ==> self@.access_token == Some(t@),
            self@.access_token is None || self@.token_expires_at is None ==> r is None,
    {
        let now = now_millis();
        self.access_token_at(now)
    }

    /// The OAuth refresh token, if one is stored.
    pub fn refresh_token(&self) -> (r: Option<&str>)
        ensures
            opt_slice(r) == self@.refresh_token,
    {
        as_opt_str(&self.refresh_token)
    }

    /// The agent token, if one is stored.
    pub fn agent_token(&self) -> (r: Option<&str>)
        ensures
            opt_slice(r) == self@.agent_token,
    {
        as_opt_str(&self.agent_token)
    }

    /// The machine id, if one is stored.
    pub fn machine_id(&self) -> (r: Option<&str>)
        ensures
            opt_slice(r) == self@.machine_id,
    {
        as_opt_str(&self.machine_id)
    }

    /// Logged in at time `now`: an API key, an access token unexpired at
    /// `now`, or an agent token.
    pub fn is_logged_in_at(&self, now: u64) -> (b: bool)
        ensures
            b == logged_in_at(self@, now),
    {
        self.api_key.is_some() || self.access_token_at(now).is_some() || self.agent_token.is_some()
    }

    /// Logged in by the system clock.
    pub fn is_logged_in(&self) -> (b: bool)
        ensures
            exists|now: u64| b == logged_in_at(self@, now),
            self@.api_key is Some || self@.agent_token is Some ==> b,
            self@.api_key is None && self@.agent_token is None && self@.access_token is None ==> !b,
    {
        let now = now_millis();
        self.is_logged_in_at(now)
    }

    /// Whether the welcome screen was shown.
    pub fn has_seen_welcome(&self) -> (b: bool)
        ensures
            b == self@.has_seen_welcome,
    {
        self.has_seen_welcome
    }

    /// Stores an API key.
    pub fn set_api_key(&mut self, key: String)
        ensures
            final(self)@ == (ConfigView { api_key: Some(key@), ..old(self)@ }),
    {
        self.api_key = Some(key);
    }

    /// Sets the Platform API URL.
    pub fn set_api_url(&mut self, url: String)
        ensures
            final(self)@ == (ConfigView { api_url: url@, ..old(self)@ }),
    {
        self.api_url = url;
    }

    /// Sets the auth server URL.
    pub fn set_auth_url(&mut self, url: String)
        ensures
            final(self)@ == (ConfigView { auth_url: url@, ..old(self)@ }),
    {
        self.auth_url = url;
    }

    /// Sets the relay URL.
    pub fn set_relay_url(&mut self, url: String)
        ensures
            final(self)@ == (ConfigView { relay_url: url@, ..old(self)@ }),
    {
        self.relay_url = url;
    }

    /// Stores an access token that expires `expires_in` seconds after `now`
    /// (ms since the epoch).
    pub fn set_access_token_at(&mut self, token: String, expires_in: u64, now: u64)
        requires
            expiry(now, expires_in) <= u64::MAX,
        ensures
            final(self)@ == with_access_token(old(self)@, token@, expires_in, now),
    {
        self.access_token = Some(token);
        self.token_expires_at = Some(now + expires_in * 1000);
    }

    /// Stores an access token that expires `expires_in` seconds from now by
    /// the system clock. When that expiry does not fit in 64 bits the
    /// configuration is left unchanged.
    pub fn set_access_token(&mut self, token: String, expires_in: u64)
        ensures
            exists|now: u64|
                {
                    ||| expiry(now, expires_in) <= u64::MAX && final(self)@ == with_access_token(
                        old(self)@,
                        token@,
                        expires_in,
                        now,
                    )
                    ||| expiry(now, expires_in) > u64::MAX && final(self)@ == old(self)@
                },
    {
        let now = now_millis();
        match expires_in.checked_mul(1000) {
            Some(ms) => match now.checked_add(ms) {
                Some(_) => {
                    self.set_access_token_at(token, expires_in, now);
                    assert(expiry(now, expires_in) <= u64::MAX && final(self)@ == with_access_token(
                        old(self)@,
                        token@,
                        expires_in,
                        now,
                    ));
                },
                None => {
                    assert(expiry(now, expires_in) > u64::MAX && final(self)@ == old(self)@);
                },
            },
            None => {
                assert(expiry(now, expires_in) > u64::MAX && final(self)@ == old(self)@);
            },
        }
    }

    /// Stores an OAuth refresh token.
    pub fn set_refresh_token(&mut self, token: String)
        ensures
            final(self)@ == (ConfigView { refresh_token: Some(token@), ..old(self)@ }),
    {
        self.refresh_token = Some(token);
    }

    /// Stores an agent token.
    pub fn set_agent_token(&mut self, token: String)
        ensures
            final(self)@ == (ConfigView { agent_token: Some(token@), ..old(self)@ }),
    {
        self.agent_token = Some(token);
    }

    /// Stores the machine id.
    pub fn set_machine_id(&mut self, id: String)
        ensures
            final(self)@ == (ConfigView { machine_id: Some(id@), ..old(self)@ }),
    {
        self.machine_id = Some(id);
    }

    /// Records that the welcome screen was shown.
    pub fn set_seen_welcome(&mut self)
        ensures
            final(self)@ == (ConfigView { has_seen_welcome: true, ..old(self)@ }),
    {
        self.has_seen_welcome = true;
    }

    /// Clear all authentication data
    pub fn clear_auth(&mut self)
        ensures
            final(self)@ == without_auth(old(self)@),
    {
        self.api_key = None;
        self.access_token = None;
        self.refresh_token = None;
        self.token_expires_at = None;
        self.agent_token = None;
    }
}

/// After the credentials are cleared nobody is logged in, at any time, and
/// the URLs, the machine id and the welcome flag are kept.
pub proof fn lemma_clear_auth_logs_out(c: ConfigView, now: u64)
    ensures
        !logged_in_at(without_auth(c), now),
        without_auth(c).api_url == c.api_url,
        without_auth(c).auth_url == c.auth_url,
        without_auth(c).relay_url == c.relay_url,
        without_auth(c).machine_id == c.machine_id,
        without_auth(c).has_seen_welcome == c.has_seen_welcome,
{
}

/// A stored API key or agent token logs in, at any time.
pub proof fn lemma_key_logs_in(c: ConfigView, key: Seq<char>, now: u64)
    ensures
        logged_in_at(ConfigView { api_key: Some(key), ..c }, now),
        logged_in_at(ConfigView { agent_token: Some(key), ..c }, now),
{
}

/// A stored access token reads back before its expiry and not from it on.
pub proof fn lemma_access_token_lifetime(
    c: ConfigView,
    token: Seq<char>,
    expires_in: u64,
    now: u64,
    later: u64,
)
    requires
        expiry(now, expires_in) <= u64::MAX,
    ensures
        later < expiry(now, expires_in) ==> access_token_at(
            with_access_token(c, token, expires_in, now),
            later,
        ) == Some(token),
        later >= expiry(now, expires_in) ==> access_token_at(
            with_access_token(c, token, expires_in, now),
            later,
        ) is None,
{
}

/// Once the access token has expired it stays expired: it reads back at a
/// time only if it reads back at every earlier time.
pub proof fn lemma_access_token_expiry_monotone(c: ConfigView, t1: u64, t2: u64)
    requires
        t1 <= t2,
        access_token_at(c, t2) is Some,
    ensures
        access_token_at(c, t1) == access_token_at(c, t2),
{
}

/// A fresh configuration is not logged in and uses the default URLs.
pub proof fn lemma_default_logged_out(now: u64)
    ensures
        !logged_in_at(default_config(), now),
        !default_config().has_seen_welcome,
{
}

} // verus!
