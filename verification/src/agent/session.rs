//! The decisions of the handler that streams one tmux session to the relay:
//! how often to capture, when a screen is worth sending and in which form,
//! and what to do with each message from a viewer.
//!
//! The application runs the event loop, the timers and tmux; it hands the
//! handler what it observed and performs what the handler answers. Times are
//! milliseconds of a monotonic clock.
use crate::codec::{base64_url_nopad_decoded, decode_base64_url_nopad};
use crate::config::app_config::opt_str;
use crate::config::{same_chars, AgentConfig};
use crate::text::{chars_of, concat, owned, parse_usize, parse_usize_exec, string_of};
use crate::websocket::client::{
    compressed_screen_message, is_compressed_frame, is_compressed_frame_message, opt_message,
    screen_message, seals_frame,
    session_meta_message, WebSocketClientOptions,
};
use crate::websocket::message::{Message, MessageView, MetaMap};
use crate::codec::{base64_encodable, base64_standard, zstd_level3};
use crate::crypto::{is_sealed, KEY_LEN, MAX_PLAINTEXT_LEN};
use vstd::prelude::*;
use vstd::utf8::encode_utf8;

verus! {

/// Capture interval while the screen changed recently.
pub const CAPTURE_INTERVAL_ACTIVE_MS: u64 = 50;

/// Capture interval once the screen has been still for a while.
pub const CAPTURE_INTERVAL_IDLE_MS: u64 = 200;

/// How long after a change the screen counts as active.
pub const ACTIVE_THRESHOLD_MS: u64 = 2000;

/// A screen is sent at least this often, changed or not.
pub const FORCE_SEND_INTERVAL_MS: u64 = 10000;

/// Frames longer than this many bytes are compressed.
pub const MIN_COMPRESS_SIZE: usize = 512;

/// How often the working directory and git state are checked.
pub const META_CHECK_INTERVAL_MS: u64 = 15000;

/// What the application does after the handler read a viewer's message.
#[derive(Debug, Clone)]
pub enum SessionAction {
    /// Nothing.
    Ignore,
    /// Deliver these keys to this tmux target (a pane id or the session).
    SendKeys { target: String, keys: String },
    /// Resize the session's window.
    Resize { cols: usize, rows: usize },
    /// Ask the agent to create a session of this name.
    CreateSession(String),
    /// Kill the tmux session (the handler has stopped).
    KillSession,
    /// Capture and send the screen now.
    RefreshScreen,
}

/// The value of a `SessionAction`.
pub enum ActionView {
    Ignore,
    SendKeys { target: Seq<char>, keys: Seq<char> },
    Resize { cols: usize, rows: usize },
    CreateSession(Seq<char>),
    KillSession,
    RefreshScreen,
}

impl View for SessionAction {
    type V = ActionView;

    open spec fn view(&self) -> ActionView {
        match self {
            SessionAction::Ignore => ActionView::Ignore,
            SessionAction::SendKeys { target, keys } => ActionView::SendKeys {
                target: target@,
                keys: keys@,
            },
            SessionAction::Resize { cols, rows } => ActionView::Resize { cols: *cols, rows: *rows },
            SessionAction::CreateSession(name) => ActionView::CreateSession(name@),
            SessionAction::KillSession => ActionView::KillSession,
            SessionAction::RefreshScreen => ActionView::RefreshScreen,
        }
    }
}

/// A number from the metadata: the value of `key` parsed, 0 when missing or
/// not a number.
pub open spec fn meta_number(meta: Map<Seq<char>, Seq<char>>, key: Seq<char>) -> usize {
    if meta.dom().contains(key) {
        match parse_usize(meta[key]) {
            Some(n) => n,
            None => 0,
        }
    } else {
        0
    }
}

/// What a resize request asks for: nothing when the size is below 10 columns
/// or 4 rows, or when it targets a pane (windows only are resized).
pub open spec fn resize_request(meta: Map<Seq<char>, Seq<char>>) -> Option<(usize, usize)> {
    let cols = meta_number(meta, "cols"@);
    let rows = meta_number(meta, "rows"@);
    if cols < 10 || rows < 4 {
        None
    } else if meta.dom().contains("pane"@) {
        None
    } else {
        Some((cols, rows))
    }
}

/// What the handler of `tmux_session` does with a viewer's message.
pub open spec fn message_action(tmux_session: Seq<char>, m: MessageView) -> ActionView {
    if m.msg_type == "keys"@ || m.msg_type == "keysEnc"@ {
        match m.payload {
            Some(keys) => ActionView::SendKeys {
                target: match m.meta {
                    Some(meta) => if meta.dom().contains("pane"@) {
                        meta["pane"@]
                    } else {
                        tmux_session
                    },
                    None => tmux_session,
                },
                keys,
            },
            None => ActionView::Ignore,
        }
    } else if m.msg_type == "resize"@ {
        match m.meta {
            Some(meta) => match resize_request(meta) {
                Some((cols, rows)) => ActionView::Resize { cols, rows },
                None => ActionView::Ignore,
            },
            None => ActionView::Ignore,
        }
    } else if m.msg_type == "createSession"@ {
        match m.meta {
            Some(meta) => if meta.dom().contains("sessionName"@) {
                ActionView::CreateSession(meta["sessionName"@])
            } else {
                ActionView::Ignore
            },
            None => ActionView::Ignore,
        }
    } else if m.msg_type == "killSession"@ {
        ActionView::KillSession
    } else if m.msg_type == "refreshScreen"@ {
        ActionView::RefreshScreen
    } else {
        ActionView::Ignore
    }
}

/// The bytes sent for a screen: clear the terminal, home the cursor, then the
/// screen's text, in UTF-8.
pub open spec fn frame_bytes(screen: Seq<char>) -> Seq<u8> {
    encode_utf8("\u{1b}[2J\u{1b}[H"@ + screen)
}

/// `r` is the message for a frame: compressed (see
/// `is_compressed_frame_message`) above `MIN_COMPRESS_SIZE` bytes, plain
/// Base64 otherwise.
pub open spec fn is_frame_message(
    r: Option<MessageView>,
    session_id: Seq<char>,
    data: Seq<u8>,
    key: Option<Seq<u8>>,
) -> bool {
    if data.len() > MIN_COMPRESS_SIZE {
        is_compressed_frame_message(r, session_id, data, key)
    } else {
        r == Some(
            MessageView {
                msg_type: "screen"@,
                role: None,
                session: Some(session_id),
                payload: Some(base64_standard(data)),
                meta: None,
            },
        )
    }
}

/// `r` is a pane's screen message for `data`: uncompressed, Base64, with
/// the pane's id as the `pane` metadata; or nothing when the data is too long
/// to Base64-encode.
pub open spec fn is_pane_frame_message(
    r: Option<MessageView>,
    session_id: Seq<char>,
    pane_id: Seq<char>,
    data: Seq<u8>,
) -> bool {
    if base64_encodable(data.len()) {
        r == Some(
            MessageView {
                msg_type: "screen"@,
                role: None,
                session: Some(session_id),
                payload: Some(base64_standard(data)),
                meta: Some(Map::<Seq<char>, Seq<char>>::empty().insert("pane"@, pane_id)),
            },
        )
    } else {
        r is None
    }
}

/// Every screen frame, whatever its size, carries the UTF-8 bytes of
/// "clear screen, cursor home" followed by the captured screen: as Base64 of
/// those bytes up to `MIN_COMPRESS_SIZE` bytes; above it as Base64 of their
/// zstd compression, sealed under the key when the key can seal it.
pub proof fn lemma_frame_carries_screen(
    r: Option<MessageView>,
    session_id: Seq<char>,
    screen: Seq<char>,
    key: Option<Seq<u8>>,
)
    requires
        is_frame_message(r, session_id, frame_bytes(screen), key),
        r is Some,
    ensures
        ({
            let d = encode_utf8("\u{1b}[2J\u{1b}[H"@ + screen);
            let m = r->0;
            let sealable = key matches Some(k) && k.len() == KEY_LEN && zstd_level3(d).len()
                <= MAX_PLAINTEXT_LEN;
            &&& m.session == Some(session_id)
            &&& d.len() <= MIN_COMPRESS_SIZE ==> m.payload == Some(base64_standard(d))
                && m.msg_type == "screen"@
            &&& (d.len() > MIN_COMPRESS_SIZE && !sealable) ==> m.payload
                == Some(base64_standard(zstd_level3(d))) && m.msg_type == "screenZstd"@
            &&& (d.len() > MIN_COMPRESS_SIZE && sealable) ==> m.msg_type
                == "screenEnc"@ && exists|p: Seq<u8>|
                is_sealed(p, key->0, zstd_level3(d)) && m.payload == Some(base64_standard(p))
        }),
{
    let d = encode_utf8("\u{1b}[2J\u{1b}[H"@ + screen);
    let m = r->0;
    if d.len() > MIN_COMPRESS_SIZE {
        let p = choose|p: Seq<u8>|
            #[trigger] is_compressed_frame(p, m.msg_type, zstd_level3(d), key) && base64_encodable(p.len())
                && m == (MessageView {
                msg_type: m.msg_type,
                role: None,
                session: Some(session_id),
                payload: Some(base64_standard(p)),
                meta: None,
            });
        if seals_frame(zstd_level3(d), key) {
            assert(is_sealed(p, key->0, zstd_level3(d)));
        }
    }
}

/// Every pane frame carries the UTF-8 bytes of "clear screen, cursor home"
/// followed by the pane's captured screen, as Base64, marked with the pane.
pub proof fn lemma_pane_frame_carries_screen(
    r: Option<MessageView>,
    session_id: Seq<char>,
    pane_id: Seq<char>,
    screen: Seq<char>,
)
    requires
        is_pane_frame_message(r, session_id, pane_id, frame_bytes(screen)),
        r is Some,
    ensures
        r->0.payload == Some(base64_standard(encode_utf8("\u{1b}[2J\u{1b}[H"@ + screen))),
        r->0.session == Some(session_id),
        r->0.meta == Some(Map::<Seq<char>, Seq<char>>::empty().insert("pane"@, pane_id)),
{
}

/// State of the handler of one tmux session.
#[derive(Debug)]
pub struct SessionHandler {
    pub config: AgentConfig,
    pub tmux_session: String,
    pub session_id: String,
    pub running: bool,
    pub last_screen: String,
    pub last_pane_screens: MetaMap,
    pub last_pane_ids: String,
    pub last_change_time: u64,
    pub last_force_send_time: u64,
    pub current_meta_json: String,
}

/// The id under which a session is published: `machine_id/tmux_session`.
pub open spec fn session_id_of(machine_id: Seq<char>, tmux_session: Seq<char>) -> Seq<char> {
    machine_id + "/"@ + tmux_session
}

/// The end-to-end key of a frame: the configured key string's bytes.
pub open spec fn frame_key(config: AgentConfig) -> Option<Seq<u8>> {
    match config.enc_key {
        Some(k) => Some(encode_utf8(k@)),
        None => None,
    }
}

/// Elapsed time from `since` to `now`, zero if the clock reads earlier.
pub open spec fn elapsed(now: u64, since: u64) -> int {
    if now >= since {
        now - since
    } else {
        0
    }
}

impl SessionHandler {
    /// A stopped handler for `tmux_session`, started at `now`.
    pub fn new(config: AgentConfig, tmux_session: String, now: u64) -> (h: Self)
        ensures
            h.session_id@ == session_id_of(config.machine_id@, tmux_session@),
            h.tmux_session@ == tmux_session@,
            h.config == config,
            !h.running,
            h.last_screen@ == Seq::<char>::empty(),
            h.last_pane_screens@ == Map::<Seq<char>, Seq<char>>::empty(),
            h.last_pane_ids@ == Seq::<char>::empty(),
            h.last_change_time == now,
            h.last_force_send_time == now,
            h.current_meta_json@ == Seq::<char>::empty(),
    {
        let mut session_id = concat(config.machine_id.as_str(), "/");
        session_id.append(tmux_session.as_str());
        SessionHandler {
            config,
            tmux_session,
            session_id,
            running: false,
            last_screen: String::new(),
            last_pane_screens: MetaMap::new(),
            last_pane_ids: String::new(),
            last_change_time: now,
            last_force_send_time: now,
            current_meta_json: String::new(),
        }
    }

    pub fn session_id(&self) -> (s: &str)
        ensures
            s@ == self.session_id@,
    {
        self.session_id.as_str()
    }

    pub fn tmux_session(&self) -> (s: &str)
        ensures
            s@ == self.tmux_session@,
    {
        self.tmux_session.as_str()
    }

    /// Marks the handler running; `false` when it already was (a second start
    /// does nothing).
    pub fn start(&mut self) -> (started: bool)
        ensures
            started == !old(self).running,
            final(self).running,
            *final(self) == (SessionHandler { running: true, ..*old(self) }),
    {
        if self.running {
            return false;
        }
        self.running = true;
        true
    }

    /// The relay client options for this session: the configured relay,
    /// token and machine, labelled with the tmux session name, reconnecting
    /// automatically; the end-to-end key is the configured key decoded from
    /// unpadded URL-safe Base64 (empty when it does not decode).
    pub fn client_options(&self) -> (o: WebSocketClientOptions)
        ensures
            o.url@ == self.config.relay@,
            o.session_id@ == self.session_id@,
            o.machine_id@ == self.config.machine_id@,
            o.token@ == self.config.token@,
            opt_str(o.label) == Some(self.tmux_session@),
            o.auto_reconnect,
            !o.skip_auto_register,
            match self.config.enc_key {
                Some(k) => o.enc_key matches Some(v) && v@ == match base64_url_nopad_decoded(k@) {
                    Some(b) => b,
                    None => Seq::<u8>::empty(),
                },
                None => o.enc_key is None,
            },
    {
        let enc_key = match &self.config.enc_key {
            Some(k) => match decode_base64_url_nopad(k.as_str()) {
                Some(b) => Some(b),
                None => Some(Vec::new()),
            },
            None => None,
        };
        WebSocketClientOptions {
            url: owned(self.config.relay.as_str()),
            session_id: owned(self.session_id.as_str()),
            machine_id: owned(self.config.machine_id.as_str()),
            token: owned(self.config.token.as_str()),
            label: Some(owned(self.tmux_session.as_str())),
            auto_reconnect: true,
            enc_key,
            skip_auto_register: false,
        }
    }

    /// How long to wait before the next capture: short while the screen
    /// changed within the last two seconds, longer otherwise.
    pub fn get_capture_interval(&self, now: u64) -> (ms: u64)
        ensures
            ms == if elapsed(now, self.last_change_time) < ACTIVE_THRESHOLD_MS {
                CAPTURE_INTERVAL_ACTIVE_MS
            } else {
                CAPTURE_INTERVAL_IDLE_MS
            },
    {
        let elapsed = now.saturating_sub(self.last_change_time);
        if elapsed < ACTIVE_THRESHOLD_MS {
            CAPTURE_INTERVAL_ACTIVE_MS
        } else {
            CAPTURE_INTERVAL_IDLE_MS
        }
    }

    /// Whether the next capture is sent even if unchanged.
    pub fn force_send_due(&self, now: u64) -> (b: bool)
        ensures
            b == (elapsed(now, self.last_force_send_time) >= FORCE_SEND_INTERVAL_MS),
    {
        now.saturating_sub(self.last_force_send_time) >= FORCE_SEND_INTERVAL_MS
    }

    /// The connection to the relay is up: the metadata is sent again at the
    /// next check.
    pub fn on_connected(&mut self)
        ensures
            *final(self) == (SessionHandler { current_meta_json: final(self).current_meta_json, ..*old(self) }),
            final(self).current_meta_json@ == Seq::<char>::empty(),
    {
        self.current_meta_json = String::new();
    }

    /// What to do with a viewer's message; a kill request also stops the
    /// handler.
    pub fn handle_message(&mut self, msg: &Message) -> (a: SessionAction)
        ensures
            a@ == message_action(old(self).tmux_session@, msg@),
            final(self).running == (old(self).running && a@ != ActionView::KillSession),
            *final(self) == (SessionHandler { running: final(self).running, ..*old(self) }),
    {
        let t = chars_of(msg.msg_type.as_str());
        if same_chars(&t, &chars_of("keys")) || same_chars(&t, &chars_of("keysEnc")) {
            match &msg.payload {
                Some(keys) => {
                    let target = match &msg.meta {
                        Some(meta) => match meta.get("pane") {
                            Some(p) => owned(p.as_str()),
                            None => owned(self.tmux_session.as_str()),
                        },
                        None => owned(self.tmux_session.as_str()),
                    };
                    SessionAction::SendKeys { target, keys: owned(keys.as_str()) }
                },
                None => SessionAction::Ignore,
            }
        } else if same_chars(&t, &chars_of("resize")) {
            match &msg.meta {
                Some(meta) => match Self::handle_resize(meta) {
                    Some((cols, rows)) => SessionAction::Resize { cols, rows },
                    None => SessionAction::Ignore,
                },
                None => SessionAction::Ignore,
            }
        } else if same_chars(&t, &chars_of("createSession")) {
            match &msg.meta {
                Some(meta) => match meta.get("sessionName") {
                    Some(name) => SessionAction::CreateSession(owned(name.as_str())),
                    None => SessionAction::Ignore,
                },
                None => SessionAction::Ignore,
            }
        } else if same_chars(&t, &chars_of("killSession")) {
            self.running = false;
            SessionAction::KillSession
        } else if same_chars(&t, &chars_of("refreshScreen")) {
            SessionAction::RefreshScreen
        } else {
            SessionAction::Ignore
        }
    }

    fn meta_number_exec(meta: &MetaMap, key: &str) -> (n: usize)
        ensures
            n == meta_number(meta@, key@),
    {
        match meta.get(key) {
            Some(v) => match parse_usize_exec(&chars_of(v.as_str())) {
                Some(n) => n,
                None => 0,
            },
            None => 0,
        }
    }

    /// The window size that a resize request asks for, if it is honoured.
    pub fn handle_resize(meta: &MetaMap) -> (r: Option<(usize, usize)>)
        ensures
            r == resize_request(meta@),
    {
        let cols = Self::meta_number_exec(meta, "cols");
        let rows = Self::meta_number_exec(meta, "rows");
        if cols < 10 || rows < 4 {
            return None;
        }
        if meta.contains_key("pane") {
            return None;
        }
        Some((cols, rows))
    }

    /// The frame message for a screen.
    fn frame_message(&self, screen: &str) -> (r: Option<Message>)
        ensures
            is_frame_message(opt_message(r), self.session_id@, frame_bytes(screen@), frame_key(self.config)),
    {
        let full = concat("\u{1b}[2J\u{1b}[H", screen);
        let data = full.as_str().as_bytes();
        if data.len() > MIN_COMPRESS_SIZE {
            let key = match &self.config.enc_key {
                Some(k) => Some(k.as_str().as_bytes()),
                None => None,
            };
            compressed_screen_message(self.session_id.as_str(), data, key)
        } else {
            Some(screen_message(self.session_id.as_str(), data))
        }
    }

    /// A capture of the session's only pane: sent when it differs from the
    /// last one sent or a send is forced, as a frame message; a change also
    /// marks the screen active.
    pub fn on_single_pane_capture(&mut self, screen: String, force_send: bool, now: u64) -> (r:
        Option<Message>)
        ensures
            ({
                let changed = screen@ != old(self).last_screen@;
                if changed || force_send {
                    &&& is_frame_message(opt_message(r), old(self).session_id@, frame_bytes(screen@), frame_key(old(self).config))
                    &&& final(self).last_screen@ == screen@
                    &&& final(self).last_force_send_time == now
                    &&& final(self).last_change_time == if changed {
                        now
                    } else {
                        old(self).last_change_time
                    }
                    &&& *final(self) == (SessionHandler {
                        last_screen: final(self).last_screen,
                        last_force_send_time: now,
                        last_change_time: final(self).last_change_time,
                        ..*old(self)
                    })
                } else {
                    r is None && *final(self) == *old(self)
                }
            }),
    {
        let changed = !same_chars(&chars_of(screen.as_str()), &chars_of(self.last_screen.as_str()));
        if !(changed || force_send) {
            return None;
        }
        let m = self.frame_message(screen.as_str());
        self.last_screen = screen;
        self.last_force_send_time = now;
        if changed {
            self.last_change_time = now;
        }
        m
    }

    /// The pane ids of a multi-pane window, joined with commas, against those
    /// last sent: `true` when the layout must be sent (it changed, or a send
    /// is forced); the ids are remembered.
    pub fn on_pane_layout(&mut self, pane_ids: String, force_send: bool) -> (send: bool)
        ensures
            send == (pane_ids@ != old(self).last_pane_ids@ || force_send),
            send ==> final(self).last_pane_ids@ == pane_ids@,
            *final(self) == (SessionHandler { last_pane_ids: final(self).last_pane_ids, ..*old(self) }),
            !send ==> final(self).last_pane_ids == old(self).last_pane_ids,
    {
        let changed = !same_chars(&chars_of(pane_ids.as_str()), &chars_of(self.last_pane_ids.as_str()));
        if changed || force_send {
            self.last_pane_ids = pane_ids;
            true
        } else {
            false
        }
    }

    /// A capture of one pane of a multi-pane window: sent, uncompressed and
    /// marked with the pane's id, when
    /// it differs from the last one sent for that pane or a send is forced;
    /// a change marks the screen active.
    pub fn on_pane_capture(&mut self, pane_id: &str, screen: String, force_send: bool, now: u64) -> (r:
        Option<Message>)
        ensures
            ({
                let last = if old(self).last_pane_screens@.dom().contains(pane_id@) {
                    old(self).last_pane_screens@[pane_id@]
                } else {
                    Seq::<char>::empty()
                };
                let changed = screen@ != last;
                if changed || force_send {
                    &&& is_pane_frame_message(opt_message(r), old(self).session_id@, pane_id@, frame_bytes(screen@))
                    &&& final(self).last_pane_screens@ == old(self).last_pane_screens@.insert(pane_id@, screen@)
                    &&& final(self).last_change_time == if changed {
                        now
                    } else {
                        old(self).last_change_time
                    }
                    &&& *final(self) == (SessionHandler {
                        last_pane_screens: final(self).last_pane_screens,
                        last_change_time: final(self).last_change_time,
                        ..*old(self)
                    })
                } else {
                    r is None && *final(self) == *old(self)
                }
            }),
    {
        let last = match self.last_pane_screens.get(pane_id) {
            Some(s) => chars_of(s.as_str()),
            None => Vec::new(),
        };
        let changed = !same_chars(&chars_of(screen.as_str()), &last);
        if !(changed || force_send) {
            return None;
        }
        let full = concat("\u{1b}[2J\u{1b}[H", screen.as_str());
        let data = full.as_str().as_bytes();
        let len = data.len();
        let m = if len / 3 > (usize::MAX - 4) / 4 {
            None
        } else {
            Some(screen_message(self.session_id.as_str(), data).meta("pane", pane_id))
        };
        self.last_pane_screens.insert(owned(pane_id), screen);
        if changed {
            self.last_change_time = now;
        }
        m
    }

    /// After the panes of a forced round were captured, the forced send is
    /// recorded.
    pub fn finish_pane_round(&mut self, force_send: bool, now: u64)
        ensures
            *final(self) == (SessionHandler {
                last_force_send_time: if force_send {
                    now
                } else {
                    old(self).last_force_send_time
                },
                ..*old(self)
            }),
    {
        if force_send {
            self.last_force_send_time = now;
        }
    }

    /// Session metadata and its JSON text: sent when the text differs from the
    /// last one sent, which it then replaces.
    pub fn on_session_meta(&mut self, meta: MetaMap, json: String) -> (r: Option<Message>)
        ensures
            ({
                let m = meta@;
                if json@ != old(self).current_meta_json@ {
                    &&& r matches Some(msg) && msg@ == (MessageView {
                        msg_type: "sessionMeta"@,
                        role: None,
                        session: Some(old(self).session_id@),
                        payload: None,
                        meta: Some(m),
                    })
                    &&& final(self).current_meta_json@ == json@
                    &&& *final(self) == (SessionHandler { current_meta_json: final(self).current_meta_json, ..*old(self) })
                } else {
                    r is None && *final(self) == *old(self)
                }
            }),
    {
        if same_chars(&chars_of(json.as_str()), &chars_of(self.current_meta_json.as_str())) {
            return None;
        }
        self.current_meta_json = json;
        Some(session_meta_message(self.session_id.as_str(), meta))
    }

    /// A screen captured on a viewer's request: always sent, as a frame
    /// message, and remembered as the last screen.
    pub fn on_refresh(&mut self, screen: String) -> (r: Option<Message>)
        ensures
            is_frame_message(opt_message(r), old(self).session_id@, frame_bytes(screen@), frame_key(old(self).config)),
            final(self).last_screen@ == screen@,
            *final(self) == (SessionHandler { last_screen: final(self).last_screen, ..*old(self) }),
    {
        let m = self.frame_message(screen.as_str());
        self.last_screen = screen;
        m
    }

    /// Stops the handler.
    pub fn stop(&mut self)
        ensures
            *final(self) == (SessionHandler { running: false, ..*old(self) }),
    {
        self.running = false;
    }
}

/// The ids of panes, in order.
pub open spec fn pane_ids(panes: Seq<crate::tmux::PaneData>) -> Seq<Seq<char>> {
    panes.map_values(|p: crate::tmux::PaneData| p.id@)
}

/// The pane ids of a window joined with commas: what the handler compares
/// to tell whether the layout changed.
pub fn pane_id_list(panes: &Vec<crate::tmux::PaneData>) -> (s: String)
    ensures
        s@ == crate::text::join(pane_ids(panes@), ","@),
{
    let mut ids: Vec<Vec<char>> = Vec::new();
    let n = panes.len();
    for i in 0..n
        invariant
            n == panes@.len(),
            ids@.len() == i,
            forall|k: int| 0 <= k < i ==> #[trigger] ids@[k]@ == panes@[k].id@,
    {
        ids.push(chars_of(panes[i].id.as_str()));
    }
    let comma = chars_of(",");
    let joined = crate::text::join_from(&ids, 0, &comma);
    assert(crate::text::vec_views(ids@.skip(0)) =~= pane_ids(panes@));
    string_of(&joined)
}

/// The session metadata for a working directory and its git state: `cwd`,
/// and `gitBranch`, `gitRemote`, `gitRepo` where known.
pub open spec fn session_meta_map(
    cwd: Seq<char>,
    git: Option<(Option<Seq<char>>, Option<Seq<char>>, Option<Seq<char>>)>,
) -> Map<Seq<char>, Seq<char>> {
    let base = Map::<Seq<char>, Seq<char>>::empty().insert("cwd"@, cwd);
    match git {
        None => base,
        Some((branch, remote, repo)) => {
            let b = match branch {
                Some(v) => base.insert("gitBranch"@, v),
                None => base,
            };
            let r = match remote {
                Some(v) => b.insert("gitRemote"@, v),
                None => b,
            };
            match repo {
                Some(v) => r.insert("gitRepo"@, v),
                None => r,
            }
        },
    }
}

/// The metadata sent for a working directory and its git state.
pub fn build_session_meta(cwd: String, git: Option<crate::tmux::GitInfo>) -> (m: MetaMap)
    ensures
        m@ == session_meta_map(
            cwd@,
            match git {
                Some(g) => Some((opt_str(g.branch), opt_str(g.remote), opt_str(g.repo))),
                None => None,
            },
        ),
{
    let mut meta = MetaMap::new();
    meta.insert(owned("cwd"), cwd);
    match git {
        Some(g) => {
            match g.branch {
                Some(b) => meta.insert(owned("gitBranch"), b),
                None => {},
            }
            match g.remote {
                Some(r) => meta.insert(owned("gitRemote"), r),
                None => {},
            }
            match g.repo {
                Some(r) => meta.insert(owned("gitRepo"), r),
                None => {},
            }
        },
        None => {},
    }
    meta
}

/// A kill request always stops the handler, whatever its state.
pub proof fn lemma_kill_stops(tmux_session: Seq<char>, m: MessageView)
    requires
        m.msg_type == "killSession"@,
    ensures
        message_action(tmux_session, m) == ActionView::KillSession,
{
    reveal_strlit("killSession");
    reveal_strlit("keys");
    reveal_strlit("keysEnc");
    reveal_strlit("resize");
    reveal_strlit("createSession");
    assert("killSession"@.len() != "keys"@.len());
    assert("killSession"@.len() != "keysEnc"@.len());
    assert("killSession"@.len() != "resize"@.len());
    assert("killSession"@.len() != "createSession"@.len());
}

/// A honoured resize is at least 10 columns by 4 rows and never targets a
/// pane.
pub proof fn lemma_resize_bounds(meta: Map<Seq<char>, Seq<char>>)
    ensures
        resize_request(meta) matches Some((cols, rows)) ==> cols >= 10 && rows >= 4
            && !meta.dom().contains("pane"@),
{
}

} // verus!
