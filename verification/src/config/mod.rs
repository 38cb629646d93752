//! Agent and application configuration.
pub mod app_config;

pub use app_config::AppConfig;

use crate::text::{chars_of, concat, owned};
use app_config::{opt_slice, opt_str};
use vstd::prelude::*;

verus! {

/// Agent configuration (from a YAML or JSON file, or from an OAuth agent
/// token).
#[derive(Debug, Clone)]
pub struct AgentConfig {
    pub machine_id: String,
    pub relay: String,
    pub token: String,
    pub enc_key: Option<String>,
    pub api: Option<ApiConfig>,
}

#[derive(Debug, Clone)]
pub struct ApiConfig {
    pub enabled: bool,
    pub agent_id: Option<String>,
    pub execution: Option<ExecConfig>,
    pub llm: Option<LlmConfig>,
    pub capabilities: Option<CapabilitiesConfig>,
}

#[derive(Debug, Clone)]
pub struct ExecConfig {
    pub enabled: bool,
    pub shell: String,
    pub working_dir: Option<String>,
    pub allowed_commands: Option<Vec<String>>,
    pub default_timeout: u64,
}

#[derive(Debug, Clone)]
pub struct LlmConfig {
    pub enabled: bool,
    pub provider: String,
    pub base_url: String,
    pub model: String,
    pub api_key: Option<String>,
}

#[derive(Debug, Clone)]
pub struct CapabilitiesConfig {
    pub execution: Option<CapabilitySetting>,
    pub exec_cwd: Option<CapabilitySetting>,
    pub llm_chat: Option<CapabilitySetting>,
    pub send_keys: Option<CapabilitySetting>,
    pub list_sessions: Option<CapabilitySetting>,
}

/// Whether a capability is on: a flag, or a word (`"ask"` grants it).
#[derive(Debug, Clone)]
pub enum CapabilitySetting {
    Bool(bool),
    Ask(String),
}

impl Default for ApiConfig {
    fn default() -> (c: Self)
        ensures
            !c.enabled,
            c.agent_id is None,
            c.execution is None,
            c.llm is None,
            c.capabilities is None,
    {
        ApiConfig { enabled: false, agent_id: None, execution: None, llm: None, capabilities: None }
    }
}

impl Default for CapabilitiesConfig {
    fn default() -> (c: Self)
        ensures
            c.execution is None,
            c.exec_cwd is None,
            c.llm_chat is None,
            c.send_keys is None,
            c.list_sessions is None,
    {
        CapabilitiesConfig {
            execution: None,
            exec_cwd: None,
            llm_chat: None,
            send_keys: None,
            list_sessions: None,
        }
    }
}

/// Whether a capability setting grants the capability.
pub open spec fn granted(s: CapabilitySetting) -> bool {
    match s {
        CapabilitySetting::Bool(b) => b,
        CapabilitySetting::Ask(word) => word@ == "ask"@,
    }
}

/// Whether two character vectors hold the same characters.
pub fn same_chars(a: &Vec<char>, b: &Vec<char>) -> (r: bool)
    ensures
        r == (a@ == b@),
{
    if a.len() != b.len() {
        return false;
    }
    let n = a.len();
    for i in 0..n
        invariant
            n == a@.len(),
            n == b@.len(),
            forall|k: int| 0 <= k < i ==> a@[k] == b@[k],
    {
        if a[i] != b[i] {
            return false;
        }
    }
    assert(a@ =~= b@);
    true
}

impl CapabilitySetting {
    /// Whether the setting grants its capability.
    pub fn is_granted(&self) -> (b: bool)
        ensures
            b == granted(*self),
    {
        match self {
            CapabilitySetting::Bool(b) => *b,
            CapabilitySetting::Ask(s) => same_chars(&chars_of(s.as_str()), &chars_of("ask")),
        }
    }
}

/// Where the agent configuration is read from: the path given on the
/// command line, else `SESSIONCAST_CONFIG`, else `TMUX_REMOTE_CONFIG`, else
/// `~/.sessioncast.yml` (each `None` when not set or not known).
pub fn config_file_path(
    arg: Option<String>,
    sessioncast_config: Option<String>,
    tmux_remote_config: Option<String>,
    home_default: Option<String>,
) -> (p: Option<String>)
    ensures
        opt_str(p) == match arg {
            Some(a) => Some(a@),
            None => match sessioncast_config {
                Some(s) => Some(s@),
                None => match tmux_remote_config {
                    Some(t) => Some(t@),
                    None => opt_str(home_default),
                },
            },
        },
{
    match arg {
        Some(a) => Some(a),
        None => match sessioncast_config {
            Some(s) => Some(s),
            None => match tmux_remote_config {
                Some(t) => Some(t),
                None => home_default,
            },
        },
    }
}

/// How an agent configuration file is written.
#[derive(Debug, Clone, Copy, PartialEq, Eq)]
pub enum ConfigFormat {
    Json,
    Yaml,
}

impl ConfigFormat {
    /// JSON for the extension `json`; YAML for any other extension or none.
    pub fn from_extension(ext: Option<&str>) -> (f: ConfigFormat)
        ensures
            (f == ConfigFormat::Json) <==> opt_slice(ext) == Some("json"@),
    {
        match ext {
            Some(e) => {
                if same_chars(&chars_of(e), &chars_of("json")) {
                    ConfigFormat::Json
                } else {
                    ConfigFormat::Yaml
                }
            },
            None => ConfigFormat::Yaml,
        }
    }
}

/// The URL of the Platform API that names the relay for an agent token.
pub fn relay_lookup_url(api_url: &str, token: &str) -> (u: String)
    ensures
        u@ == api_url@ + "/public/agent-tokens/"@ + token@ + "/relay"@,
{
    let mut u = concat(api_url, "/public/agent-tokens/");
    u.append(token);
    u.append("/relay");
    u
}

impl AgentConfig {
    /// The configuration of an agent logged in with an OAuth agent token: the
    /// relay that the Platform API named, else the configured relay URL; no
    /// end-to-end key; the default API settings.
    pub fn from_agent_token(
        app_relay_url: &str,
        token: &str,
        machine_id: String,
        fetched_relay: Option<String>,
    ) -> (c: AgentConfig)
        ensures
            c.machine_id@ == machine_id@,
            c.relay@ == match fetched_relay {
                Some(r) => r@,
                None => app_relay_url@,
            },
            c.token@ == token@,
            c.enc_key is None,
            c.api matches Some(api) && !api.enabled && api.agent_id is None && api.execution is None
                && api.llm is None && api.capabilities is None,
    {
        let relay = match fetched_relay {
            Some(r) => r,
            None => owned(app_relay_url),
        };
        AgentConfig {
            machine_id,
            relay,
            token: owned(token),
            enc_key: None,
            api: Some(ApiConfig::default()),
        }
    }
}

} // verus!
