use sessioncast::agent::runner::{get_tmux_not_found_error, AgentRunner, HostPlatform};
use sessioncast::agent::session::{
    build_session_meta, pane_id_list, SessionAction, SessionHandler, CAPTURE_INTERVAL_ACTIVE_MS,
    CAPTURE_INTERVAL_IDLE_MS,
};
use base64::engine::general_purpose::STANDARD;
use base64::Engine;
use sessioncast::config::{AgentConfig, ApiConfig};
use sessioncast::tmux::{GitInfo, PaneData};
use sessioncast::websocket::message::{Message, MetaMap};

fn config(enc_key: Option<&str>) -> AgentConfig {
    AgentConfig {
        machine_id: "mac".to_string(),
        relay: "wss://relay.example/ws".to_string(),
        token: "agt_t".to_string(),
        enc_key: enc_key.map(|k| k.to_string()),
        api: Some(ApiConfig::default()),
    }
}

fn handler() -> SessionHandler {
    SessionHandler::new(config(None), "dev".to_string(), 1_000)
}

fn payload_text(m: &Message) -> String {
    let bytes = STANDARD.decode(m.payload.as_deref().unwrap()).unwrap();
    String::from_utf8(bytes).unwrap()
}

#[test]
fn session_id_joins_machine_and_session() {
    let h = handler();
    assert_eq!(h.session_id(), "mac/dev");
    assert_eq!(h.tmux_session(), "dev");
    assert!(!h.running);
}

#[test]
fn start_twice_starts_once() {
    let mut h = handler();
    assert!(h.start());
    assert!(!h.start());
    assert!(h.running);
    h.stop();
    assert!(!h.running);
}

#[test]
fn client_options_label_the_session() {
    let h = handler();
    let o = h.client_options();
    assert_eq!(o.url, "wss://relay.example/ws");
    assert_eq!(o.session_id, "mac/dev");
    assert_eq!(o.machine_id, "mac");
    assert_eq!(o.token, "agt_t");
    assert_eq!(o.label.as_deref(), Some("dev"));
    assert!(o.auto_reconnect);
    assert!(o.enc_key.is_none());
}

#[test]
fn client_options_decode_the_key() {
    // "AAEC" is unpadded URL-safe Base64 of [0, 1, 2]
    let h = SessionHandler::new(config(Some("AAEC")), "dev".to_string(), 0);
    assert_eq!(h.client_options().enc_key, Some(vec![0u8, 1, 2]));
    let bad = SessionHandler::new(config(Some("!!!")), "dev".to_string(), 0);
    assert_eq!(bad.client_options().enc_key, Some(vec![]));
}

#[test]
fn capture_interval_is_short_while_active() {
    let h = handler();
    assert_eq!(h.get_capture_interval(1_000), CAPTURE_INTERVAL_ACTIVE_MS);
    assert_eq!(h.get_capture_interval(2_999), CAPTURE_INTERVAL_ACTIVE_MS);
    assert_eq!(h.get_capture_interval(3_000), CAPTURE_INTERVAL_IDLE_MS);
    // a clock that reads earlier counts as no time passed
    assert_eq!(h.get_capture_interval(0), CAPTURE_INTERVAL_ACTIVE_MS);
}

#[test]
fn force_send_every_ten_seconds() {
    let h = handler();
    assert!(!h.force_send_due(10_999));
    assert!(h.force_send_due(11_000));
}

#[test]
fn keys_go_to_the_pane_or_the_session() {
    let mut h = handler();
    let a = h.handle_message(&Message::new("keys").payload("ls\n"));
    match a {
        SessionAction::SendKeys { target, keys } => {
            assert_eq!(target, "dev");
            assert_eq!(keys, "ls\n");
        }
        other => panic!("unexpected {:?}", other),
    }
    let a = h.handle_message(&Message::new("keys").payload("x").meta("pane", "%3"));
    match a {
        SessionAction::SendKeys { target, .. } => assert_eq!(target, "%3"),
        other => panic!("unexpected {:?}", other),
    }
    assert!(matches!(h.handle_message(&Message::new("keys")), SessionAction::Ignore));
}

#[test]
fn resize_requests() {
    let mut h = handler();
    let m = Message::new("resize").meta("cols", "120").meta("rows", "40");
    assert!(matches!(h.handle_message(&m), SessionAction::Resize { cols: 120, rows: 40 }));
    let small = Message::new("resize").meta("cols", "9").meta("rows", "40");
    assert!(matches!(h.handle_message(&small), SessionAction::Ignore));
    let pane = Message::new("resize").meta("cols", "120").meta("rows", "40").meta("pane", "%1");
    assert!(matches!(h.handle_message(&pane), SessionAction::Ignore));
    let junk = Message::new("resize").meta("cols", "abc").meta("rows", "40");
    assert!(matches!(h.handle_message(&junk), SessionAction::Ignore));
}

#[test]
fn handle_resize_reads_numbers() {
    let mut meta = MetaMap::new();
    meta.insert("cols".to_string(), "80".to_string());
    meta.insert("rows".to_string(), "4".to_string());
    assert_eq!(SessionHandler::handle_resize(&meta), Some((80, 4)));
    meta.insert("rows".to_string(), "3".to_string());
    assert_eq!(SessionHandler::handle_resize(&meta), None);
}

#[test]
fn create_kill_refresh() {
    let mut h = handler();
    h.start();
    let c = h.handle_message(&Message::new("createSession").meta("sessionName", "work"));
    match c {
        SessionAction::CreateSession(name) => assert_eq!(name, "work"),
        other => panic!("unexpected {:?}", other),
    }
    assert!(matches!(h.handle_message(&Message::new("createSession")), SessionAction::Ignore));
    assert!(matches!(h.handle_message(&Message::new("refreshScreen")), SessionAction::RefreshScreen));
    assert!(matches!(h.handle_message(&Message::new("other")), SessionAction::Ignore));
    assert!(h.running);
    assert!(matches!(h.handle_message(&Message::new("killSession")), SessionAction::KillSession));
    assert!(!h.running);
}

#[test]
fn single_pane_capture_sends_changes_only() {
    let mut h = handler();
    let m = h.on_single_pane_capture("hello".to_string(), false, 5_000).unwrap();
    assert_eq!(m.msg_type, "screen");
    assert_eq!(m.session.as_deref(), Some("mac/dev"));
    assert_eq!(payload_text(&m), "\x1b[2J\x1b[Hhello");
    assert_eq!(h.last_change_time, 5_000);
    assert_eq!(h.last_force_send_time, 5_000);
    // unchanged: nothing
    assert!(h.on_single_pane_capture("hello".to_string(), false, 6_000).is_none());
    assert_eq!(h.last_change_time, 5_000);
    // unchanged but forced: sent, not marked active
    assert!(h.on_single_pane_capture("hello".to_string(), true, 20_000).is_some());
    assert_eq!(h.last_change_time, 5_000);
    assert_eq!(h.last_force_send_time, 20_000);
}

#[test]
fn large_screens_are_compressed() {
    let mut h = handler();
    let screen = "x".repeat(600);
    let m = h.on_single_pane_capture(screen, false, 0).unwrap();
    assert_eq!(m.msg_type, "screenZstd");
}

#[test]
fn pane_layout_and_captures() {
    let mut h = handler();
    assert!(h.on_pane_layout("%0,%1".to_string(), false));
    assert!(!h.on_pane_layout("%0,%1".to_string(), false));
    assert!(h.on_pane_layout("%0,%1".to_string(), true));
    assert!(h.on_pane_layout("%0".to_string(), false));

    let m = h.on_pane_capture("%0", "a".to_string(), false, 7_000).unwrap();
    assert_eq!(payload_text(&m), "\x1b[2J\x1b[Ha");
    assert_eq!(m.meta.as_ref().unwrap().get("pane"), Some(&"%0".to_string()));
    assert_eq!(m.meta.as_ref().unwrap().entries().len(), 1);
    assert_eq!(h.last_change_time, 7_000);
    assert!(h.on_pane_capture("%0", "a".to_string(), false, 8_000).is_none());
    assert!(h.on_pane_capture("%1", "a".to_string(), false, 8_000).is_some());
    assert!(h.on_pane_capture("%0", "a".to_string(), true, 9_000).is_some());
    assert_eq!(h.last_change_time, 8_000);
    h.finish_pane_round(true, 9_000);
    assert_eq!(h.last_force_send_time, 9_000);
    h.finish_pane_round(false, 10_000);
    assert_eq!(h.last_force_send_time, 9_000);
}

#[test]
fn session_meta_sent_when_it_changes() {
    let mut h = handler();
    let meta = build_session_meta("/home/u".to_string(), None);
    let m = h.on_session_meta(meta.clone(), "{\"cwd\":\"/home/u\"}".to_string()).unwrap();
    assert_eq!(m.msg_type, "sessionMeta");
    assert_eq!(m.meta.unwrap().get("cwd"), Some(&"/home/u".to_string()));
    assert!(h.on_session_meta(meta.clone(), "{\"cwd\":\"/home/u\"}".to_string()).is_none());
    h.on_connected();
    assert!(h.on_session_meta(meta, "{\"cwd\":\"/home/u\"}".to_string()).is_some());
}

#[test]
fn session_meta_carries_git_state() {
    let git = GitInfo {
        branch: Some("main".to_string()),
        remote: Some("git@github.com:o/r.git".to_string()),
        repo: Some("o/r".to_string()),
    };
    let meta = build_session_meta("/src".to_string(), Some(git));
    assert_eq!(meta.get("gitBranch"), Some(&"main".to_string()));
    assert_eq!(meta.get("gitRemote"), Some(&"git@github.com:o/r.git".to_string()));
    assert_eq!(meta.get("gitRepo"), Some(&"o/r".to_string()));
    let partial = build_session_meta(
        "/src".to_string(),
        Some(GitInfo { branch: Some("dev".to_string()), remote: None, repo: None }),
    );
    assert_eq!(partial.get("gitRemote"), None);
    assert_eq!(partial.entries().len(), 2);
}

#[test]
fn refresh_always_sends() {
    let mut h = handler();
    h.on_single_pane_capture("s".to_string(), false, 0);
    let m = h.on_refresh("s".to_string()).unwrap();
    assert_eq!(payload_text(&m), "\x1b[2J\x1b[Hs");
    assert_eq!(h.last_screen, "s");
}

#[test]
fn runner_scan_starts_new_and_stops_gone() {
    let mut r = AgentRunner::new(config(None));
    assert!(r.begin());
    assert!(!r.begin());
    let c = r.scan(&vec!["a".to_string(), "b".to_string()]);
    let mut started = c.to_start.clone();
    started.sort();
    assert_eq!(started, vec!["a".to_string(), "b".to_string()]);
    assert!(c.to_stop.is_empty());
    // rescan: quiet
    let c = r.scan(&vec!["b".to_string(), "a".to_string()]);
    assert!(c.to_start.is_empty() && c.to_stop.is_empty());
    let c = r.scan(&vec!["b".to_string(), "c".to_string()]);
    assert_eq!(c.to_start, vec!["c".to_string()]);
    assert_eq!(c.to_stop, vec!["a".to_string()]);
    let mut stopped = r.stop();
    stopped.sort();
    assert_eq!(stopped, vec!["b".to_string(), "c".to_string()]);
    assert_eq!(r.config().machine_id, "mac");
}

#[test]
fn tmux_not_found_messages() {
    assert!(get_tmux_not_found_error(HostPlatform::MacOS).contains("brew install tmux"));
    assert!(get_tmux_not_found_error(HostPlatform::Other).contains("sudo apt install tmux"));
    assert!(get_tmux_not_found_error(HostPlatform::Windows).contains("choco install itmux"));
}

fn pane(id: &str) -> PaneData {
    PaneData {
        id: id.to_string(),
        index: 0,
        width: 80,
        height: 24,
        top: 0,
        left: 0,
        active: false,
        title: String::new(),
    }
}

#[test]
fn pane_ids_are_joined_with_commas() {
    assert_eq!(pane_id_list(&vec![pane("%0"), pane("%3"), pane("%7")]), "%0,%3,%7");
    assert_eq!(pane_id_list(&vec![pane("%0")]), "%0");
    assert_eq!(pane_id_list(&vec![]), "");
}
