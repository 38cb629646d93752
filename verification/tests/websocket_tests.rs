use base64::engine::general_purpose::STANDARD;
use base64::Engine;
use sessioncast::crypto::encrypt;
use sessioncast::websocket::client::{
    compressed_screen_message, create_register_message, decrypt_if_needed, frame_outcome,
    IncomingFrame, pane_layout_message, WsEvent,
    screen_message, session_meta_message, WebSocketClientOptions,
};
use sessioncast::websocket::message::{Message, MetaMap};
use sessioncast::websocket::reconnect::{
    backoff_delay, BreakerCheck, ClientFlags, ConnectionOutcome, ReconnectAction, ReconnectPolicy,
    CIRCUIT_BREAKER_DURATION_MS, SESSION_LIMIT_CLOSE_CODE,
};

fn meta_value(m: &Message, key: &str) -> Option<String> {
    m.meta.as_ref().and_then(|meta| meta.get(key).cloned())
}

#[test]
fn meta_map_insert_replaces_and_keeps_keys_once() {
    let mut m = MetaMap::new();
    assert!(!m.contains_key("a"));
    m.insert("a".to_string(), "1".to_string());
    m.insert("b".to_string(), "2".to_string());
    m.insert("a".to_string(), "3".to_string());
    assert_eq!(m.get("a"), Some(&"3".to_string()));
    assert_eq!(m.get("b"), Some(&"2".to_string()));
    assert_eq!(m.get("c"), None);
    assert_eq!(m.entries().len(), 2);
    let c = m.clone();
    assert_eq!(c.get("a"), Some(&"3".to_string()));
    assert_eq!(c.entries().len(), 2);
}

#[test]
fn message_builders_fill_the_fields() {
    let m = Message::new("keys").role("viewer").session("m/s").payload("ls\n").meta("k", "v");
    assert_eq!(m.msg_type, "keys");
    assert_eq!(m.role.as_deref(), Some("viewer"));
    assert_eq!(m.session.as_deref(), Some("m/s"));
    assert_eq!(m.payload.as_deref(), Some("ls\n"));
    assert_eq!(meta_value(&m, "k"), Some("v".to_string()));
    let bare = Message::new("ping");
    assert!(bare.role.is_none() && bare.session.is_none() && bare.payload.is_none());
    assert!(bare.meta.is_none());
}

#[test]
fn payload_bytes_is_base64() {
    let m = Message::new("screen").payload_bytes(b"hi");
    assert_eq!(m.payload.as_deref(), Some("aGk="));
}

#[test]
fn register_message_uses_label_machine_and_token() {
    let mut o = WebSocketClientOptions::default();
    o.session_id = "host1/dev".to_string();
    o.machine_id = "host1".to_string();
    o.token = "agt_x".to_string();
    let m = create_register_message(&o);
    assert_eq!(m.msg_type, "register");
    assert_eq!(m.role.as_deref(), Some("host"));
    assert_eq!(m.session.as_deref(), Some("host1/dev"));
    assert_eq!(meta_value(&m, "label"), Some("host1/dev".to_string()));
    assert_eq!(meta_value(&m, "machineId"), Some("host1".to_string()));
    assert_eq!(meta_value(&m, "token"), Some("agt_x".to_string()));

    o.label = Some("Dev box".to_string());
    o.token = String::new();
    let m = create_register_message(&o);
    assert_eq!(meta_value(&m, "label"), Some("Dev box".to_string()));
    assert_eq!(meta_value(&m, "token"), None);
}

#[test]
fn client_options_default() {
    let o = WebSocketClientOptions::default();
    assert!(o.auto_reconnect);
    assert!(!o.skip_auto_register);
    assert!(o.enc_key.is_none());
    assert!(o.label.is_none());
}

#[test]
fn encrypted_keys_are_decrypted() {
    let key = vec![42u8; 32];
    let sealed = encrypt(b"echo hi\n", &key).unwrap();
    let payload = STANDARD.encode(&sealed);
    let m = Message::new("keysEnc").session("m/s").payload(&payload);
    let out = decrypt_if_needed(m, &Some(key));
    assert_eq!(out.msg_type, "keys");
    assert_eq!(out.payload.as_deref(), Some("echo hi\n"));
    assert_eq!(out.session.as_deref(), Some("m/s"));
}

#[test]
fn messages_that_do_not_decrypt_pass_unchanged() {
    let key = vec![42u8; 32];
    // not keysEnc
    let m = decrypt_if_needed(Message::new("keys").payload("x"), &Some(key.clone()));
    assert_eq!(m.msg_type, "keys");
    assert_eq!(m.payload.as_deref(), Some("x"));
    // no key
    let m = decrypt_if_needed(Message::new("keysEnc").payload("AAAA"), &None);
    assert_eq!(m.msg_type, "keysEnc");
    // not Base64
    let m = decrypt_if_needed(Message::new("keysEnc").payload("!!"), &Some(key.clone()));
    assert_eq!(m.msg_type, "keysEnc");
    assert_eq!(m.payload.as_deref(), Some("!!"));
    // wrong key
    let sealed = encrypt(b"x", &[1u8; 32]).unwrap();
    let payload = STANDARD.encode(&sealed);
    let m = decrypt_if_needed(Message::new("keysEnc").payload(&payload), &Some(key));
    assert_eq!(m.msg_type, "keysEnc");
    assert_eq!(m.payload.as_deref(), Some(payload.as_str()));
}

#[test]
fn screen_message_is_base64_of_the_frame() {
    let m = screen_message("m/s", b"\x1b[2J\x1b[Hhello");
    assert_eq!(m.msg_type, "screen");
    assert_eq!(m.session.as_deref(), Some("m/s"));
    assert_eq!(m.payload.as_deref(), Some("G1syShtbSGhlbGxv"));
}

#[test]
fn compressed_screen_without_key_is_zstd() {
    let data = b"hello hello hello hello hello";
    let m = compressed_screen_message("m/s", data, None).unwrap();
    assert_eq!(m.msg_type, "screenZstd");
    let bytes = STANDARD.decode(m.payload.as_deref().unwrap()).unwrap();
    // zstd frame magic number
    assert_eq!(&bytes[..4], &[0x28, 0xb5, 0x2f, 0xfd]);
}

#[test]
fn compressed_screen_with_key_is_sealed() {
    let key = [7u8; 32];
    let data = b"screen contents";
    let m = compressed_screen_message("m/s", data, Some(&key)).unwrap();
    assert_eq!(m.msg_type, "screenEnc");
    let bytes = STANDARD.decode(m.payload.as_deref().unwrap()).unwrap();
    let opened = sessioncast::crypto::decrypt(&bytes, &key).unwrap();
    assert_eq!(opened, zstd::encode_all(&data[..], 3).unwrap());
}

#[test]
fn compressed_screen_with_a_short_key_goes_out_compressed() {
    let m = compressed_screen_message("m/s", b"screen contents", Some(b"short")).unwrap();
    assert_eq!(m.msg_type, "screenZstd");
    let bytes = STANDARD.decode(m.payload.as_deref().unwrap()).unwrap();
    assert_eq!(&bytes[..4], &[0x28, 0xb5, 0x2f, 0xfd]);
}

#[test]
fn session_meta_and_pane_layout_messages() {
    let mut meta = MetaMap::new();
    meta.insert("cwd".to_string(), "/home/u".to_string());
    let m = session_meta_message("m/s", meta);
    assert_eq!(m.msg_type, "sessionMeta");
    assert_eq!(meta_value(&m, "cwd"), Some("/home/u".to_string()));
    let p = pane_layout_message("m/s", "[]");
    assert_eq!(p.msg_type, "paneLayout");
    assert_eq!(p.payload.as_deref(), Some("[]"));
}

#[test]
fn backoff_doubles_up_to_the_cap() {
    assert_eq!(backoff_delay(1), 2000);
    assert_eq!(backoff_delay(2), 4000);
    assert_eq!(backoff_delay(3), 8000);
    assert_eq!(backoff_delay(4), 16000);
    assert_eq!(backoff_delay(5), 32000);
    assert_eq!(backoff_delay(6), 60000);
    assert_eq!(backoff_delay(40), 60000);
}

#[test]
fn closure_retry_adds_half_the_remainder_as_jitter() {
    let mut p = ReconnectPolicy::new();
    // random 3001 % 2000 = 1001, / 2 = 500
    let a = p.on_outcome(ConnectionOutcome::Closed(1006), true, true, 0, 3001);
    assert_eq!(a, ReconnectAction::Retry(2500));
    assert_eq!(p.attempts, 1);
    let a = p.on_outcome(ConnectionOutcome::Closed(1006), true, true, 0, 0);
    assert_eq!(a, ReconnectAction::Retry(4000));
    assert_eq!(p.attempts, 2);
}

#[test]
fn failure_retry_has_no_jitter() {
    let mut p = ReconnectPolicy::new();
    let a = p.on_outcome(ConnectionOutcome::Failed, true, true, 0, 1234);
    assert_eq!(a, ReconnectAction::Retry(2000));
    let a = p.on_outcome(ConnectionOutcome::Failed, true, true, 0, 1234);
    assert_eq!(a, ReconnectAction::Retry(4000));
    assert_eq!(p.attempts, 2);
}

#[test]
fn session_limit_closure_stops_for_good() {
    let mut p = ReconnectPolicy::new();
    let a = p.on_outcome(ConnectionOutcome::Closed(SESSION_LIMIT_CLOSE_CODE), true, true, 0, 0);
    assert_eq!(a, ReconnectAction::SessionLimitExceeded);
    assert_eq!(p.attempts, 0);
}

#[test]
fn no_reconnect_when_disabled_or_stopped() {
    let mut p = ReconnectPolicy::new();
    assert_eq!(p.on_outcome(ConnectionOutcome::Failed, false, true, 0, 0), ReconnectAction::Stop);
    assert_eq!(p.on_outcome(ConnectionOutcome::Failed, true, false, 0, 0), ReconnectAction::Stop);
    assert_eq!(p.attempts, 0);
}

#[test]
fn breaker_opens_after_six_closures_then_waits() {
    let mut p = ReconnectPolicy::new();
    for _ in 0..5 {
        match p.on_outcome(ConnectionOutcome::Closed(1006), true, true, 1_000, 0) {
            ReconnectAction::Retry(_) => {}
            other => panic!("expected a retry, got {:?}", other),
        }
    }
    assert_eq!(p.attempts, 5);
    let a = p.on_outcome(ConnectionOutcome::Closed(1006), true, true, 1_000, 0);
    assert_eq!(a, ReconnectAction::OpenBreaker);
    assert_eq!(p.attempts, 0);
    assert_eq!(p.circuit_breaker_until, Some(1_000 + CIRCUIT_BREAKER_DURATION_MS));

    let c = p.check_breaker(2_000);
    assert_eq!(c, BreakerCheck::Wait(1_000 + CIRCUIT_BREAKER_DURATION_MS - 2_000));
    assert_eq!(p.circuit_breaker_until, None);
    assert_eq!(p.check_breaker(2_000), BreakerCheck::Connect);
}

#[test]
fn expired_breaker_lets_the_client_connect() {
    let mut p = ReconnectPolicy { attempts: 3, circuit_breaker_until: Some(500) };
    assert_eq!(p.check_breaker(500), BreakerCheck::Connect);
    assert_eq!(p.attempts, 3);
    assert_eq!(p.circuit_breaker_until, Some(500));
}

#[test]
fn outcome_range_guard() {
    let p = ReconnectPolicy { attempts: 53, circuit_breaker_until: None };
    assert!(p.outcome_fits(ConnectionOutcome::Failed, true, true, 0));
    let q = ReconnectPolicy { attempts: 54, circuit_breaker_until: None };
    assert!(!q.outcome_fits(ConnectionOutcome::Failed, true, true, 0));
    assert!(q.outcome_fits(ConnectionOutcome::Failed, false, true, 0));
    let r = ReconnectPolicy { attempts: 5, circuit_breaker_until: None };
    assert!(!r.outcome_fits(ConnectionOutcome::Closed(1006), true, true, u64::MAX));
    assert!(r.outcome_fits(ConnectionOutcome::Closed(SESSION_LIMIT_CLOSE_CODE), true, true, u64::MAX));
    let s = ReconnectPolicy { attempts: u32::MAX, circuit_breaker_until: None };
    assert!(!s.outcome_fits(ConnectionOutcome::Closed(1006), true, true, 0));
}

#[test]
fn frame_outcomes() {
    let key = vec![42u8; 32];
    let sealed = encrypt(b"ls\n", &key).unwrap();
    let m = Message::new("keysEnc").payload(&STANDARD.encode(&sealed));
    match frame_outcome(IncomingFrame::Message(m), &Some(key.clone())) {
        (Some(WsEvent::Message(d)), None) => {
            assert_eq!(d.msg_type, "keys");
            assert_eq!(d.payload.as_deref(), Some("ls\n"));
        }
        other => panic!("unexpected {:?}", other),
    }
    assert!(matches!(frame_outcome(IncomingFrame::Skipped, &None), (None, None)));
    match frame_outcome(IncomingFrame::Close(Some((1013, "full".to_string()))), &None) {
        (Some(WsEvent::Disconnected { code, reason }), Some(Ok(c))) => {
            assert_eq!((code, reason.as_str(), c), (1013, "full", 1013));
        }
        other => panic!("unexpected {:?}", other),
    }
    match frame_outcome(IncomingFrame::Close(None), &None) {
        (Some(WsEvent::Disconnected { code, reason }), Some(Ok(c))) => {
            assert_eq!((code, reason.as_str(), c), (1000, "Normal closure", 1000));
        }
        other => panic!("unexpected {:?}", other),
    }
    assert!(matches!(frame_outcome(IncomingFrame::End, &None), (None, Some(Ok(1000)))));
    match frame_outcome(IncomingFrame::Error("reset".to_string()), &None) {
        (Some(WsEvent::Error(e)), Some(Err(t))) => assert_eq!((e.as_str(), t.as_str()), ("reset", "reset")),
        other => panic!("unexpected {:?}", other),
    }
}

#[test]
fn client_starts_once() {
    let mut f = ClientFlags::new();
    assert!(f.start());
    f.connected = true;
    assert!(!f.start());
    assert!(f.running && f.connected);
    f.stop();
    assert!(!f.running && !f.connected);
    assert!(f.start());
}

#[test]
fn compressed_frame_is_the_zstd_frame_of_the_data() {
    let data = b"0123456789".repeat(60);
    let m = compressed_screen_message("m/s", &data, None).unwrap();
    let bytes = STANDARD.decode(m.payload.as_deref().unwrap()).unwrap();
    assert_eq!(bytes, zstd::encode_all(&data[..], 3).unwrap());
}

#[test]
fn client_flags_after_the_policy_answers() {
    let mut f = ClientFlags::new();
    f.start();
    assert!(f.after_action(ReconnectAction::Retry(2000)));
    assert!(f.after_action(ReconnectAction::OpenBreaker));
    assert!(f.running);
    assert!(!f.after_action(ReconnectAction::Stop));
    assert!(f.running);
    assert!(!f.after_action(ReconnectAction::SessionLimitExceeded));
    assert!(!f.running);
}
