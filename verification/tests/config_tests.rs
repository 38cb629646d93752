use sessioncast::config::app_config::now_millis;
use sessioncast::config::{
    config_file_path, relay_lookup_url, AgentConfig, AppConfig, CapabilitySetting, ConfigFormat,
};

#[test]
fn default_config_has_the_public_urls_and_no_credentials() {
    let c = AppConfig::default();
    assert_eq!(c.api_url(), "https://api.sessioncast.io");
    assert_eq!(c.auth_url(), "https://auth.sessioncast.io");
    assert_eq!(c.relay_url(), "wss://relay.sessioncast.io/ws");
    assert_eq!(c.api_key(), None);
    assert_eq!(c.refresh_token(), None);
    assert_eq!(c.agent_token(), None);
    assert_eq!(c.machine_id(), None);
    assert!(!c.has_seen_welcome());
    assert!(!c.is_logged_in());
}

#[test]
fn api_key_logs_in_and_clear_auth_logs_out() {
    let mut c = AppConfig::default();
    c.set_api_key("agt_123".to_string());
    assert_eq!(c.api_key(), Some("agt_123"));
    assert!(c.is_logged_in());
    c.set_machine_id("m1".to_string());
    c.set_seen_welcome();
    c.clear_auth();
    assert!(!c.is_logged_in());
    assert_eq!(c.api_key(), None);
    // what is not a credential stays
    assert_eq!(c.machine_id(), Some("m1"));
    assert!(c.has_seen_welcome());
    assert_eq!(c.api_url(), "https://api.sessioncast.io");
}

#[test]
fn agent_token_logs_in() {
    let mut c = AppConfig::default();
    c.set_agent_token("tok".to_string());
    assert_eq!(c.agent_token(), Some("tok"));
    assert!(c.is_logged_in());
}

#[test]
fn access_token_lives_until_its_expiry() {
    let mut c = AppConfig::default();
    c.set_access_token_at("at".to_string(), 60, 1_000);
    // expiry = 1000 + 60 * 1000 = 61000 ms
    assert_eq!(c.access_token_at(1_000), Some("at"));
    assert_eq!(c.access_token_at(60_999), Some("at"));
    assert_eq!(c.access_token_at(61_000), None);
    assert!(c.is_logged_in_at(60_999));
    assert!(!c.is_logged_in_at(61_000));
}

#[test]
fn access_token_set_now_is_live() {
    let mut c = AppConfig::default();
    c.set_access_token("fresh".to_string(), 3600);
    assert_eq!(c.access_token(), Some("fresh"));
    assert!(c.is_logged_in());
}

#[test]
fn refresh_token_alone_does_not_log_in() {
    let mut c = AppConfig::default();
    c.set_refresh_token("r".to_string());
    assert_eq!(c.refresh_token(), Some("r"));
    assert!(!c.is_logged_in_at(0));
}

#[test]
fn url_setters_replace_the_urls() {
    let mut c = AppConfig::default();
    c.set_api_url("http://localhost:8080".to_string());
    c.set_auth_url("http://localhost:9000".to_string());
    c.set_relay_url("ws://localhost:8081/ws".to_string());
    assert_eq!(c.api_url(), "http://localhost:8080");
    assert_eq!(c.auth_url(), "http://localhost:9000");
    assert_eq!(c.relay_url(), "ws://localhost:8081/ws");
}

#[test]
fn clock_reads_after_the_year_2020() {
    assert!(now_millis() > 1_577_836_800_000);
}

#[test]
fn capability_settings() {
    assert!(CapabilitySetting::Bool(true).is_granted());
    assert!(!CapabilitySetting::Bool(false).is_granted());
    assert!(CapabilitySetting::Ask("ask".to_string()).is_granted());
    assert!(!CapabilitySetting::Ask("deny".to_string()).is_granted());
    assert!(!CapabilitySetting::Ask("ASK".to_string()).is_granted());
}

#[test]
fn config_file_path_prefers_the_argument_then_the_environment() {
    let home = Some("/home/u/.sessioncast.yml".to_string());
    assert_eq!(
        config_file_path(
            Some("a.yml".to_string()),
            Some("b.yml".to_string()),
            Some("c.yml".to_string()),
            home.clone()
        ),
        Some("a.yml".to_string())
    );
    assert_eq!(
        config_file_path(None, Some("b.yml".to_string()), Some("c.yml".to_string()), home.clone()),
        Some("b.yml".to_string())
    );
    assert_eq!(
        config_file_path(None, None, Some("c.yml".to_string()), home.clone()),
        Some("c.yml".to_string())
    );
    assert_eq!(config_file_path(None, None, None, home.clone()), home);
    assert_eq!(config_file_path(None, None, None, None), None);
}

#[test]
fn config_format_by_extension() {
    assert_eq!(ConfigFormat::from_extension(Some("json")), ConfigFormat::Json);
    assert_eq!(ConfigFormat::from_extension(Some("yml")), ConfigFormat::Yaml);
    assert_eq!(ConfigFormat::from_extension(Some("yaml")), ConfigFormat::Yaml);
    assert_eq!(ConfigFormat::from_extension(Some("JSON")), ConfigFormat::Yaml);
    assert_eq!(ConfigFormat::from_extension(None), ConfigFormat::Yaml);
}

#[test]
fn relay_lookup_url_names_the_token() {
    assert_eq!(
        relay_lookup_url("https://api.sessioncast.io", "agt_abc"),
        "https://api.sessioncast.io/public/agent-tokens/agt_abc/relay"
    );
}

#[test]
fn agent_config_from_token_uses_fetched_relay() {
    let c = AgentConfig::from_agent_token(
        "wss://relay.sessioncast.io/ws",
        "agt_abc",
        "host-1".to_string(),
        Some("wss://r2.example/ws".to_string()),
    );
    assert_eq!(c.relay, "wss://r2.example/ws");
    assert_eq!(c.token, "agt_abc");
    assert_eq!(c.machine_id, "host-1");
    assert!(c.enc_key.is_none());
    let api = c.api.unwrap();
    assert!(!api.enabled);
    assert!(api.execution.is_none());
}

#[test]
fn agent_config_from_token_falls_back_to_configured_relay() {
    let c = AgentConfig::from_agent_token(
        "wss://relay.sessioncast.io/ws",
        "agt_abc",
        "host-1".to_string(),
        None,
    );
    assert_eq!(c.relay, "wss://relay.sessioncast.io/ws");
}
