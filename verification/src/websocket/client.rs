//! What the relay client sends and how it reads what it receives: the
//! registration message, screen frames (compressed and optionally
//! encrypted), session metadata and pane layouts, and the decryption of
//! encrypted key presses.
use super::message::{Message, MessageView, MetaMap};
use crate::codec::{
    base64_encodable, base64_standard, base64_standard_decoded, decode_base64_standard,
    from_utf8_lossy, gzip_compress, utf8_lossy, zstd_compress, zstd_level3,
};
use crate::config::app_config::opt_str;
use crate::crypto::{decrypt, decrypt_result, encrypt, is_sealed, IV_LEN, KEY_LEN, MAX_PLAINTEXT_LEN, TAG_LEN};
use crate::text::{chars_of, owned};
use crate::config::same_chars;
use vstd::prelude::*;

verus! {

/// WebSocket client options
#[derive(Debug, Clone)]
pub struct WebSocketClientOptions {
    pub url: String,
    pub session_id: String,
    pub machine_id: String,
    pub token: String,
    pub label: Option<String>,
    pub auto_reconnect: bool,
    pub enc_key: Option<Vec<u8>>,
    pub skip_auto_register: bool,
}

impl Default for WebSocketClientOptions {
    fn default() -> (o: Self)
        ensures
            o.url@ == Seq::<char>::empty(),
            o.session_id@ == Seq::<char>::empty(),
            o.machine_id@ == Seq::<char>::empty(),
            o.token@ == Seq::<char>::empty(),
            o.label is None,
            o.auto_reconnect,
            o.enc_key is None,
            !o.skip_auto_register,
    {
        WebSocketClientOptions {
            url: String::new(),
            session_id: String::new(),
            machine_id: String::new(),
            token: String::new(),
            label: None,
            auto_reconnect: true,
            enc_key: None,
            skip_auto_register: false,
        }
    }
}

/// Event from WebSocket
#[derive(Debug, Clone)]
pub enum WsEvent {
    Connected,
    Disconnected { code: u16, reason: String },
    Message(Message),
    Error(String),
}

/// The metadata with which a host registers: its label (the configured one,
/// else the session id), its machine id, and its token when it has one.
pub open spec fn register_meta(o: WebSocketClientOptions) -> Map<Seq<char>, Seq<char>> {
    let base = Map::<Seq<char>, Seq<char>>::empty().insert(
        "label"@,
        match o.label {
            Some(l) => l@,
            None => o.session_id@,
        },
    ).insert("machineId"@, o.machine_id@);
    if o.token@.len() == 0 {
        base
    } else {
        base.insert("token"@, o.token@)
    }
}

/// The message by which a host registers its session with the relay.
pub fn create_register_message(options: &WebSocketClientOptions) -> (m: Message)
    ensures
        m@ == (MessageView {
            msg_type: "register"@,
            role: Some("host"@),
            session: Some(options.session_id@),
            payload: None,
            meta: Some(register_meta(*options)),
        }),
{
    let mut meta = MetaMap::new();
    let label = match &options.label {
        Some(l) => owned(l.as_str()),
        None => owned(options.session_id.as_str()),
    };
    meta.insert(owned("label"), label);
    meta.insert(owned("machineId"), owned(options.machine_id.as_str()));
    if !options.token.as_str().is_empty() {
        meta.insert(owned("token"), owned(options.token.as_str()));
    }
    Message::new("register").role("host").session(options.session_id.as_str()).meta_map(meta)
}

/// What `decrypt_if_needed` makes of a message: a `keysEnc` message whose
/// payload is Base64 of data that decrypts under the key becomes a `keys`
/// message carrying the decrypted text; anything else is left as it is.
pub open spec fn decrypted_message(m: MessageView, key: Option<Seq<u8>>) -> MessageView {
    if m.msg_type == "keysEnc"@ && key is Some && m.payload is Some {
        match base64_standard_decoded(m.payload->0) {
            Some(encrypted) => match decrypt_result(encrypted, key->0) {
                Ok(plain) => MessageView {
                    msg_type: "keys"@,
                    payload: Some(utf8_lossy(plain)),
                    ..m
                },
                Err(_) => m,
            },
            None => m,
        }
    } else {
        m
    }
}

/// The key of an optional key vector.
pub open spec fn opt_bytes(k: Option<Vec<u8>>) -> Option<Seq<u8>> {
    match k {
        Some(v) => Some(v@),
        None => None,
    }
}

/// Decrypts key presses that a viewer sent end-to-end encrypted; other
/// messages, and messages that do not decrypt, pass unchanged. When the
/// payload is Base64 of text sealed under the key, the result carries that
/// text.
pub fn decrypt_if_needed(message: Message, enc_key: &Option<Vec<u8>>) -> (m: Message)
    ensures
        m@ == decrypted_message(message@, opt_bytes(*enc_key)),
        m@.role == message@.role,
        m@.session == message@.session,
        m@.meta == message@.meta,
        ({
            let mv = message@;
            &&& mv.msg_type == "keysEnc"@
            &&& mv.payload is Some
            &&& enc_key is Some
            &&& enc_key->0@.len() == KEY_LEN
            &&& base64_standard_decoded(mv.payload->0) is Some
        }) ==> ({
            let out = base64_standard_decoded(message@.payload->0)->0;
            let k = enc_key->0;
            forall|text: Seq<char>|
                #![trigger vstd::utf8::encode_utf8(text)]
                is_sealed(out, k@, vstd::utf8::encode_utf8(text)) ==> m@.msg_type == "keys"@
                    && m@.payload == Some(text)
        }),
{
    let is_keys_enc = same_chars(&chars_of(message.msg_type.as_str()), &chars_of("keysEnc"));
    if !is_keys_enc {
        return message;
    }
    let key = match enc_key {
        Some(k) => k,
        None => {
            return message;
        },
    };
    let encrypted = match &message.payload {
        Some(p) => match decode_base64_standard(p.as_str()) {
            Some(d) => d,
            None => {
                return message;
            },
        },
        None => {
            return message;
        },
    };
    match decrypt(encrypted.as_slice(), key.as_slice()) {
        Ok(decrypted) => {
            let text = from_utf8_lossy(decrypted.as_slice());
            proof {
                assert forall|t: Seq<char>|
                    #![trigger vstd::utf8::encode_utf8(t)]
                    is_sealed(encrypted@, key@, vstd::utf8::encode_utf8(t)) implies text@ == t by {
                    crate::crypto::lemma_decrypt_inverts_encrypt(
                        encrypted@,
                        key@,
                        vstd::utf8::encode_utf8(t),
                    );
                    vstd::utf8::encode_utf8_valid_utf8(t);
                    vstd::utf8::encode_utf8_decode_utf8(t);
                }
            }
            let mut msg = message;
            msg.msg_type = owned("keys");
            msg.payload = Some(text);
            msg
        },
        Err(_) => message,
    }
}

/// Decrypting a message changes at most its type and payload: the sender's
/// role, the session and the metadata (a target pane among them) are those
/// of the incoming message. A message that is not `keysEnc`, or that comes
/// without a key, passes unchanged; one that changes becomes `keys`.
pub proof fn lemma_decrypt_keeps_addressing(m: MessageView, key: Option<Seq<u8>>)
    ensures
        decrypted_message(m, key).role == m.role,
        decrypted_message(m, key).session == m.session,
        decrypted_message(m, key).meta == m.meta,
        m.msg_type != "keysEnc"@ || key is None ==> decrypted_message(m, key) == m,
        decrypted_message(m, key) == m || decrypted_message(m, key).msg_type == "keys"@,
{
}

/// One frame read from the relay's socket.
#[derive(Debug, Clone)]
pub enum IncomingFrame {
    /// A text frame that holds a message.
    Message(Message),
    /// A frame the client passes over: text that is no message, a ping, a
    /// pong or binary data.
    Skipped,
    /// A close frame, with its code and reason when it carries them.
    Close(Option<(u16, String)>),
    /// The stream ended.
    End,
    /// Reading failed, with the error's text.
    Error(String),
}

/// What the reader does with a frame: the event it reports, if any, and
/// whether the connection ends, with its close code or the read error.
/// Messages are decrypted where needed; a close without a frame counts as a
/// normal closure (1000), as does the end of the stream.
pub fn frame_outcome(frame: IncomingFrame, enc_key: &Option<Vec<u8>>) -> (r: (
    Option<WsEvent>,
    Option<Result<u16, String>>,
))
    ensures
        match frame {
            IncomingFrame::Message(m) => r.1 is None && (r.0 matches Some(WsEvent::Message(d))
                && d@ == decrypted_message(m@, opt_bytes(*enc_key))),
            IncomingFrame::Skipped => r.0 is None && r.1 is None,
            IncomingFrame::Close(Some((code, reason))) => r.0 matches Some(
                WsEvent::Disconnected { code: c, reason: t },
            ) && c == code && t@ == reason@ && r.1 == Some(Ok::<u16, String>(code)),
            IncomingFrame::Close(None) => r.0 matches Some(
                WsEvent::Disconnected { code: c, reason: t },
            ) && c == 1000 && t@ == "Normal closure"@ && r.1 == Some(Ok::<u16, String>(1000)),
            IncomingFrame::End => r.0 is None && r.1 == Some(Ok::<u16, String>(1000)),
            IncomingFrame::Error(e) => (r.0 matches Some(WsEvent::Error(t)) && t@ == e@) && (
            r.1 matches Some(Err(t2)) && t2@ == e@),
        },
{
    match frame {
        IncomingFrame::Message(m) => (Some(WsEvent::Message(decrypt_if_needed(m, enc_key))), None),
        IncomingFrame::Skipped => (None, None),
        IncomingFrame::Close(Some((code, reason))) => (
            Some(WsEvent::Disconnected { code, reason }),
            Some(Ok(code)),
        ),
        IncomingFrame::Close(None) => (
            Some(WsEvent::Disconnected { code: 1000, reason: owned("Normal closure") }),
            Some(Ok(1000)),
        ),
        IncomingFrame::End => (None, Some(Ok(1000))),
        IncomingFrame::Error(e) => {
            let t = owned(e.as_str());
            (Some(WsEvent::Error(e)), Some(Err(t)))
        },
    }
}

/// A screen frame: the bytes, Base64-encoded.
pub fn screen_message(session: &str, data: &[u8]) -> (m: Message)
    requires
        base64_encodable(data@.len()),
    ensures
        m@ == (MessageView {
            msg_type: "screen"@,
            role: None,
            session: Some(session@),
            payload: Some(base64_standard(data@)),
            meta: None,
        }),
{
    Message::new("screen").session(session).payload_bytes(data)
}

/// zstd-compresses `data` at level 3 (gzip were zstd to fail, empty were
/// both to fail).
fn compress_screen(data: &[u8]) -> (r: Vec<u8>)
    ensures
        r@ == zstd_level3(data@),
{
    match zstd_compress(data) {
        Some(c) => c,
        None => match gzip_compress(data) {
            Some(g) => g,
            None => Vec::new(),
        },
    }
}

/// A compressed frame `c` is sent sealed under the key: there is a key of 32
/// bytes and the frame is not longer than AES-GCM accepts.
pub open spec fn seals_frame(c: Seq<u8>, key: Option<Seq<u8>>) -> bool {
    key matches Some(k) && k.len() == KEY_LEN && c.len() <= MAX_PLAINTEXT_LEN
}

/// `payload` and `msg_type` are how the compressed frame `c` is sent: sealed
/// under the key (`encrypt`) as `screenEnc` when it can be, otherwise as it
/// is, as `screenZstd`.
pub open spec fn is_compressed_frame(payload: Seq<u8>, msg_type: Seq<char>, c: Seq<u8>, key: Option<Seq<u8>>) -> bool {
    if seals_frame(c, key) {
        msg_type == "screenEnc"@ && is_sealed(payload, key->0, c)
    } else {
        msg_type == "screenZstd"@ && payload == c
    }
}

/// The length of what the compressed frame `c` is sent as.
pub open spec fn compressed_frame_len(c: Seq<u8>, key: Option<Seq<u8>>) -> nat {
    if seals_frame(c, key) {
        c.len() + (IV_LEN + TAG_LEN) as nat
    } else {
        c.len()
    }
}

/// `r` is the compressed frame message for `data`: its zstd compression,
/// sent as `is_compressed_frame` says, Base64-encoded; or nothing when that
/// payload is too long to encode.
pub open spec fn is_compressed_frame_message(
    r: Option<MessageView>,
    session: Seq<char>,
    data: Seq<u8>,
    key: Option<Seq<u8>>,
) -> bool {
    let c = zstd_level3(data);
    match r {
        Some(m) => exists|p: Seq<u8>|
            #[trigger] is_compressed_frame(p, m.msg_type, c, key) && base64_encodable(p.len()) && m
                == (MessageView {
                msg_type: m.msg_type,
                role: None,
                session: Some(session),
                payload: Some(base64_standard(p)),
                meta: None,
            }),
        None => !base64_encodable(compressed_frame_len(c, key)),
    }
}

/// The view of an optional message.
pub open spec fn opt_message(m: Option<Message>) -> Option<MessageView> {
    match m {
        Some(v) => Some(v@),
        None => None,
    }
}

/// A compressed screen frame; `None` when the payload is too long to
/// Base64-encode.
pub fn compressed_screen_message(session: &str, data: &[u8], enc_key: Option<&[u8]>) -> (r:
    Option<Message>)
    ensures
        is_compressed_frame_message(
            opt_message(r),
            session@,
            data@,
            match enc_key {
                Some(k) => Some(k@),
                None => None,
            },
        ),
{
    let compressed = compress_screen(data);
    let ghost c = compressed@;
    let ghost kv = match enc_key {
        Some(k) => Some(k@),
        None => None,
    };
    let (payload, msg_type): (Vec<u8>, &str) = match enc_key {
        Some(key) => match encrypt(compressed.as_slice(), key) {
            Ok(out) => (out, "screenEnc"),
            Err(_) => (compressed, "screenZstd"),
        },
        None => (compressed, "screenZstd"),
    };
    proof {
        reveal_strlit("screenEnc");
        reveal_strlit("screenZstd");
    }
    assert(is_compressed_frame(payload@, msg_type@, c, kv));
    assert(payload@.len() == compressed_frame_len(c, kv));
    let len = payload.len();
    if len / 3 > (usize::MAX - 4) / 4 {
        return None;
    }
    let m = Message::new(msg_type).session(session).payload_bytes(payload.as_slice());
    assert(is_compressed_frame(payload@, m@.msg_type, c, kv));
    Some(m)
}

/// Session metadata (working directory, git state).
pub fn session_meta_message(session: &str, meta: MetaMap) -> (m: Message)
    ensures
        m@ == (MessageView {
            msg_type: "sessionMeta"@,
            role: None,
            session: Some(session@),
            payload: None,
            meta: Some(meta@),
        }),
{
    Message::new("sessionMeta").session(session).meta_map(meta)
}

/// The pane layout of a session, already serialized as JSON.
pub fn pane_layout_message(session: &str, panes_json: &str) -> (m: Message)
    ensures
        m@ == (MessageView {
            msg_type: "paneLayout"@,
            role: None,
            session: Some(session@),
            payload: Some(panes_json@),
            meta: None,
        }),
{
    Message::new("paneLayout").session(session).payload(panes_json)
}

} // verus!
