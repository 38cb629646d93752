use sessioncast::commands::cli::{listed_session_name, tunnel_url};
use sessioncast::commands::cmd::{
    create_window_args, exec_mode, ExecMode, generate_random_session_name, generate_window_name, new_session_args,
    press_enter_args, type_command_args, window_target,
};
use sessioncast::commands::deps::{
    find_zip_url, get_required_deps, install_dep, install_itmux_windows, itmux_install_dir,
    linux_install_command,
    zip_url_sliceable, DepsError, InstallMethod, Platform,
};
use sessioncast::commands::login::{
    agent_token_endpoint, authorization_url, callback_response, check_callback,
    generate_code_challenge, generate_code_verifier, generate_state, login_status_at,
    manual_login, parse_callback_request, store_login, redirect_uri, split_whitespace, token_endpoint,
    token_request_form, CallbackResult, KeyKind, LoginError, LoginStatus,
};
use sessioncast::commands::update::is_current_version;
use sessioncast::config::AppConfig;

#[test]
fn platform_detection() {
    assert_eq!(Platform::detect("macos"), Platform::MacOS);
    assert_eq!(Platform::detect("linux"), Platform::Linux);
    assert_eq!(Platform::detect("windows"), Platform::Windows);
    assert_eq!(Platform::detect("freebsd"), Platform::Unknown);
}

#[test]
fn required_deps_by_platform() {
    let d = get_required_deps(Platform::Linux);
    assert_eq!(d.len(), 1);
    assert_eq!(d[0].binary, "tmux");
    let d = get_required_deps(Platform::Windows);
    assert_eq!(d[0].name, "itmux");
    assert_eq!(d[0].description, Some("tmux-like terminal multiplexer for Windows"));
    assert!(get_required_deps(Platform::Unknown).is_empty());
}

#[test]
fn install_methods() {
    let tmux = &get_required_deps(Platform::MacOS)[0];
    let itmux = &get_required_deps(Platform::Windows)[0];
    assert_eq!(install_dep(tmux, Platform::MacOS), Ok(InstallMethod::Brew));
    assert_eq!(install_dep(tmux, Platform::Linux), Ok(InstallMethod::LinuxPackageManager));
    assert_eq!(install_dep(itmux, Platform::Windows), Ok(InstallMethod::ItmuxDownload));
    assert_eq!(install_dep(tmux, Platform::Windows), Ok(InstallMethod::Nothing));
    assert_eq!(install_dep(itmux, Platform::MacOS), Ok(InstallMethod::Nothing));
    assert_eq!(install_dep(tmux, Platform::Unknown), Err(DepsError::UnknownPlatform));
    assert_eq!(install_itmux_windows(Platform::Linux), Err(DepsError::ItmuxOnlyOnWindows));
    assert_eq!(install_itmux_windows(Platform::Windows), Ok(()));
    assert!(DepsError::UnknownPlatform.message().contains("install dependencies manually"));
    assert!(DepsError::NoPackageManager.message().contains("apk add tmux"));
}

#[test]
fn linux_package_manager_order() {
    let (pm, cmd) = linux_install_command(true, true, false, false, false).unwrap();
    assert_eq!(pm, "apt");
    assert_eq!(cmd, vec!["apt-get", "install", "-y", "tmux"]);
    let (pm, cmd) = linux_install_command(false, true, true, false, false).unwrap();
    assert_eq!(pm, "dnf");
    assert_eq!(cmd, vec!["dnf", "install", "-y", "tmux"]);
    let (pm, cmd) = linux_install_command(false, false, true, false, false).unwrap();
    assert_eq!(pm, "yum");
    assert_eq!(cmd, vec!["yum", "install", "-y", "tmux"]);
    let (pm, cmd) = linux_install_command(false, false, false, true, true).unwrap();
    assert_eq!(pm, "pacman");
    assert_eq!(cmd, vec!["pacman", "-S", "--noconfirm", "tmux"]);
    let (pm, cmd) = linux_install_command(false, false, false, false, true).unwrap();
    assert_eq!(pm, "apk");
    assert_eq!(cmd, vec!["apk", "add", "tmux"]);
    assert_eq!(
        linux_install_command(false, false, false, false, false),
        Err(DepsError::NoPackageManager)
    );
}

#[test]
fn zip_url_from_release_json() {
    let body = "{\n  \"assets\": [\n    {\n      \"name\": \"itmux.zip\",\n      \"browser_download_url\": \"https://github.com/itefixnet/itmux/releases/download/v1/itmux.zip\"\n    }\n  ]\n}";
    assert!(zip_url_sliceable(body));
    assert_eq!(
        find_zip_url(body),
        Some("https://github.com/itefixnet/itmux/releases/download/v1/itmux.zip".to_string())
    );
    assert_eq!(find_zip_url("{\"assets\": []}"), None);
    // a download line without https: nothing
    assert_eq!(find_zip_url("\"browser_download_url\": \"ftp://x/a.zip\""), None);
}

#[test]
fn unsliceable_zip_line_is_detected() {
    // last quote before the https
    let body = "browser_download_url \" https://x/a.zip";
    assert!(!zip_url_sliceable(body));
}

#[test]
fn cmd_names_are_random_lowercase() {
    let s = generate_random_session_name();
    assert_eq!(s.len(), 9);
    assert!(s.starts_with("sc-"));
    assert!(s[3..].chars().all(|c| c.is_ascii_lowercase() || c.is_ascii_digit()));
    let w = generate_window_name();
    assert_eq!(w.len(), 8);
    assert!(w.starts_with("cmd-"));
    assert!(w[4..].chars().all(|c| c.is_ascii_lowercase() || c.is_ascii_digit()));
}

#[test]
fn cmd_tmux_arguments() {
    assert_eq!(create_window_args("s", "w"), vec!["new-window", "-t", "s", "-n", "w"]);
    assert_eq!(window_target("s", "w"), "s:w");
    assert_eq!(type_command_args("s:w", "ls -la"), vec!["send-keys", "-t", "s:w", "-l", "ls -la"]);
    assert_eq!(press_enter_args("s:w"), vec!["send-keys", "-t", "s:w", "Enter"]);
    assert_eq!(new_session_args("sc-1", None, true), vec!["new-session", "-d", "-s", "sc-1"]);
    assert_eq!(
        new_session_args("sc-1", Some("/tmp"), false),
        vec!["new-session", "-s", "sc-1", "-c", "/tmp"]
    );
}

#[test]
fn tunnel_targets() {
    assert_eq!(tunnel_url("3000"), "http://localhost:3000");
    assert_eq!(tunnel_url("65535"), "http://localhost:65535");
    assert_eq!(tunnel_url("65536"), "65536");
    assert_eq!(tunnel_url("http://example.com"), "http://example.com");
    assert_eq!(tunnel_url(""), "");
}

#[test]
fn listed_names() {
    assert_eq!(listed_session_name(Some("mac"), "dev"), "mac:dev");
    assert_eq!(listed_session_name(None, "dev"), "dev");
}

#[test]
fn version_comparison() {
    assert!(is_current_version("v0.1.0", "0.1.0"));
    assert!(is_current_version("0.1.0", "0.1.0"));
    assert!(!is_current_version("v0.2.0", "0.1.0"));
    assert!(is_current_version("vv1.0", "1.0"));
}

#[test]
fn manual_login_by_prefix() {
    let mut c = AppConfig::default();
    assert!(matches!(manual_login(&mut c, "agt_abc"), Ok(KeyKind::AgentToken)));
    assert_eq!(c.agent_token(), Some("agt_abc"));
    assert_eq!(c.api_key(), None);
    let mut c = AppConfig::default();
    assert!(matches!(manual_login(&mut c, "sk-abc"), Ok(KeyKind::ApiKey)));
    assert_eq!(c.api_key(), Some("sk-abc"));
    let mut c = AppConfig::default();
    assert!(matches!(manual_login(&mut c, "bogus"), Err(LoginError::InvalidKeyFormat)));
    assert!(!c.is_logged_in());
}

#[test]
fn pkce_challenge_is_sha256_in_url_safe_base64() {
    assert_eq!(
        generate_code_challenge("dBjftJeZ4CVP-mJ92K9E2HCg9QnyTflg6sLNpqxrg5g"),
        "rFO_h35kxlrMUTP_6VsWi2J6T_B97VRMzqCNQ_FgoeY"
    );
}

#[test]
fn verifier_and_state_shapes() {
    let v = generate_code_verifier();
    assert_eq!(v.len(), 43);
    assert!(!v.contains('=') && !v.contains('+') && !v.contains('/'));
    let s = generate_state();
    assert_eq!(s.len(), 32);
    assert!(s.chars().all(|c| c.is_ascii_hexdigit() && !c.is_ascii_uppercase()));
    assert_ne!(generate_state(), s);
}

#[test]
fn authorization_url_carries_the_parameters() {
    let u = authorization_url(
        "https://auth.sessioncast.io",
        "http://127.0.0.1:9876/callback",
        "st",
        "ch",
    )
    .unwrap();
    assert!(u.starts_with("https://auth.sessioncast.io/oauth/authorize?"));
    assert!(u.contains("client_id=sessioncast-cli"));
    assert!(u.contains("redirect_uri=http%3A%2F%2F127.0.0.1%3A9876%2Fcallback"));
    assert!(u.contains("response_type=code"));
    assert!(u.contains("scope=openid+profile+email"));
    assert!(u.contains("state=st"));
    assert!(u.contains("code_challenge=ch"));
    assert!(u.contains("code_challenge_method=S256"));
    assert!(matches!(authorization_url("not a url", "r", "s", "c"), Err(LoginError::InvalidUrl)));
}

#[test]
fn redirect_uri_names_the_port() {
    assert_eq!(redirect_uri(9876), "http://127.0.0.1:9876/callback");
    assert_eq!(redirect_uri(0), "http://127.0.0.1:0/callback");
}

#[test]
fn split_whitespace_words() {
    let w = split_whitespace("  GET /cb?x=1\tHTTP/1.1 \r\n");
    let w: Vec<String> = w.into_iter().map(|v| v.into_iter().collect()).collect();
    assert_eq!(w, vec!["GET", "/cb?x=1", "HTTP/1.1"]);
    assert!(split_whitespace("   ").is_empty());
}

#[test]
fn callback_request_parsing() {
    let r = parse_callback_request("GET /callback?code=abc&state=xyz HTTP/1.1").unwrap();
    assert_eq!(r.code.as_deref(), Some("abc"));
    assert_eq!(r.state.as_deref(), Some("xyz"));
    assert!(r.error.is_none());
    let r = parse_callback_request("GET /callback?error=access_denied&error_description=no%20way HTTP/1.1")
        .unwrap();
    assert_eq!(r.error.as_deref(), Some("access_denied"));
    assert_eq!(r.error_description.as_deref(), Some("no way"));
    // the last of repeated keys wins
    let r = parse_callback_request("GET /cb?code=1&code=2 HTTP/1.1").unwrap();
    assert_eq!(r.code.as_deref(), Some("2"));
    assert!(matches!(parse_callback_request("GET"), Err(LoginError::InvalidRequest)));
    assert!(matches!(parse_callback_request(""), Err(LoginError::InvalidRequest)));
}

#[test]
fn callback_checks() {
    let ok = CallbackResult {
        code: Some("abc".to_string()),
        state: Some("xyz".to_string()),
        error: None,
        error_description: None,
    };
    assert_eq!(check_callback(&ok, "xyz").unwrap(), "abc");
    assert!(matches!(check_callback(&ok, "other"), Err(LoginError::StateMismatch)));
    assert!(callback_response(&ok).starts_with("HTTP/1.1 200 OK"));
    let no_code = CallbackResult { code: None, ..ok.clone() };
    assert!(matches!(check_callback(&no_code, "xyz"), Err(LoginError::NoAuthorizationCode)));
    let failed = CallbackResult { error: Some("access_denied".to_string()), ..ok.clone() };
    match check_callback(&failed, "xyz") {
        Err(LoginError::AuthenticationFailed(m)) => assert_eq!(m, "access_denied"),
        other => panic!("unexpected {:?}", other),
    }
    assert!(callback_response(&failed).starts_with("HTTP/1.1 400 Bad Request"));
}

#[test]
fn endpoints_and_token_form() {
    assert_eq!(token_endpoint("https://auth.sessioncast.io"), "https://auth.sessioncast.io/oauth/token");
    assert_eq!(
        agent_token_endpoint("https://api.sessioncast.io"),
        "https://api.sessioncast.io/api/tokens/generate"
    );
    let f = token_request_form("c", "r", "v");
    let f: Vec<(&str, &str)> = f.iter().map(|(k, v)| (k.as_str(), v.as_str())).collect();
    assert_eq!(
        f,
        vec![
            ("grant_type", "authorization_code"),
            ("client_id", "sessioncast-cli"),
            ("code", "c"),
            ("redirect_uri", "r"),
            ("code_verifier", "v"),
        ]
    );
}

#[test]
fn login_status() {
    let mut c = AppConfig::default();
    assert_eq!(login_status_at(&c, 0), LoginStatus::NotLoggedIn);
    c.set_api_key("sk-1".to_string());
    assert_eq!(login_status_at(&c, 0), LoginStatus::KeyOrAgentToken);
    c.set_access_token_at("at".to_string(), 10, 0);
    assert_eq!(login_status_at(&c, 5_000), LoginStatus::OAuth);
    assert_eq!(login_status_at(&c, 10_000), LoginStatus::KeyOrAgentToken);
}

#[test]
fn itmux_goes_to_the_user_profile() {
    assert_eq!(itmux_install_dir(Some("C:\\Users\\me")), "C:\\Users\\me\\itmux");
    assert_eq!(itmux_install_dir(None), "C:\\itmux");
}

#[test]
fn cmd_runs_where_the_session_is() {
    let existing = vec!["dev".to_string(), "ops".to_string()];
    assert_eq!(exec_mode(&existing, &"dev".to_string(), false), ExecMode::ExistingSession);
    assert_eq!(exec_mode(&existing, &"dev".to_string(), true), ExecMode::NewWindow);
    assert_eq!(exec_mode(&existing, &"sc-abc123".to_string(), true), ExecMode::NewSession);
    assert_eq!(exec_mode(&vec![], &"dev".to_string(), false), ExecMode::NewSession);
}

#[test]
fn login_results_are_stored() {
    let mut c = AppConfig::default();
    store_login(
        &mut c,
        "at".to_string(),
        3600,
        Some("rt".to_string()),
        Some(("agt_1".to_string(), "host".to_string())),
    );
    assert_eq!(c.access_token(), Some("at"));
    assert_eq!(c.refresh_token(), Some("rt"));
    assert_eq!(c.agent_token(), Some("agt_1"));
    assert_eq!(c.machine_id(), Some("host"));
    let mut d = AppConfig::default();
    store_login(&mut d, "at2".to_string(), 60, None, None);
    assert_eq!(d.access_token(), Some("at2"));
    assert_eq!(d.refresh_token(), None);
    assert_eq!(d.agent_token(), None);
}
