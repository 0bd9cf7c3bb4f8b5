//! What the client does with a button press, a key, or a reply from the network: the
//! session it moves to and the request it sends, if any.
use vstd::prelude::*;

use crate::app::{to_upper, unicode_upper};
use crate::client::{logged_out, session_is_gm, AppState, ClientSession, FocusField, HealthState};
use crate::hex::HexCoord;
use crate::protocol::{ClientMsg, LobbyView};
use crate::app::ascii_upper;
use crate::text::{char_is_control, is_control_char, pop_char, push_char, trim, trimmed};

verus! {

/// Signing in to an existing account, or creating one.
#[derive(Debug, Clone, Copy, PartialEq, Eq, Structural)]
pub enum AuthMode {
    Login,
    Register,
}

/// What the network reports back to the client.
pub enum NetEvent {
    Health { state: HealthState, message: String },
    Authenticated { token: String, user_id: String, username: String },
    Lobby { lobby: LobbyView, connect_ws: bool },
    WsStatus { generation: u64, message: String },
    WsError { generation: u64, message: String },
    Error { message: String },
}

/// A request the client sends.
pub enum NetRequest {
    Health,
    Auth { mode: AuthMode, username: String, password: String },
    CreateRoom { token: String },
    JoinRoom { code: String, token: String },
    Ready { code: String, ready: bool, token: String },
    Start { code: String, token: String },
    RefreshLobby { code: String, token: String },
    Action { code: String, token: String, msg: ClientMsg },
    OpenSocket { code: String, token: String, generation: u64 },
}

/// A button of the client's screens.
#[derive(Debug, Clone, Copy, PartialEq, Eq, Structural)]
pub enum UiAction {
    Focus(FocusField),
    Login,
    Register,
    Logout,
    CreateRoom,
    JoinRoom,
    Ready,
    Unready,
    Start,
    RefreshLobby,
    RollD20Location,
    DrawCcc,
    RollD20Hex,
    RollD6Move,
    MoveToken { q: i32, r: i32 },
}

pub open spec fn bump(v: u64) -> u64 {
    vstd::wrapping::u64_specs::wrapping_add(v, 1)
}

pub open spec fn one_less(n: usize) -> usize {
    if n > 0 { (n - 1) as usize } else { 0 }
}

/// The session shows the failure: the error is set and the request no longer counts.
pub open spec fn shows_error(s: ClientSession, n: ClientSession, message: Seq<char>) -> bool {
    &&& n == (ClientSession { error: n.error, inflight: one_less(s.inflight), ui_version: bump(s.ui_version), ..s })
    &&& n.error matches Some(e) && e@ == message
}

/// A request started with the status shown.
pub open spec fn started(s: ClientSession, n: ClientSession, status: Seq<char>) -> bool {
    &&& n == (ClientSession {
        inflight: (s.inflight + 1) as usize,
        status: n.status,
        error: None,
        ui_version: bump(s.ui_version),
        ..s
    })
    &&& n.status@ == status
}

/// The room a request is about: the lobby shown, else the code typed (upper-cased).
pub open spec fn session_code(s: ClientSession) -> Option<Seq<char>> {
    match s.lobby {
        Some(l) => Some(l.code@),
        None => if trim(s.room_code_input@).len() > 0 {
            Some(unicode_upper(trim(s.room_code_input@)))
        } else {
            None
        },
    }
}

/// A request about the current room: nothing while another request is in flight; a
/// shown error without a token or without a room; otherwise the request starts with
/// the status and `expect` describes it from the room code and the token.
pub open spec fn room_request(
    s: ClientSession,
    n: ClientSession,
    r: Option<NetRequest>,
    status: Seq<char>,
    expect: spec_fn(NetRequest, Seq<char>, String) -> bool,
) -> bool {
    if s.inflight > 0 {
        n == s && r is None
    } else if s.token is None {
        shows_error(s, n, "сначала войдите"@) && r is None
    } else if session_code(s) is None {
        shows_error(s, n, "нет активной комнаты"@) && r is None
    } else {
        &&& started(s, n, status)
        &&& (r matches Some(q) && expect(q, session_code(s)->0, s.token->0))
    }
}

/// A sign-in or registration press: nothing while a request is in flight; the typed
/// name (trimmed) must have at least 3 bytes and the password 8.
pub open spec fn auth_pressed(s: ClientSession, mode: AuthMode, n: ClientSession, r: Option<NetRequest>) -> bool {

                
                let name = trim(s.username_input@);
                if s.inflight > 0 {
                    n == s && r is None
                } else if (vstd::utf8::encode_utf8(name).len() as usize) < 3 || (vstd::utf8::encode_utf8(s.password_input@).len() as usize) < 8 {
                    shows_error(s, n, "логин от 3 символов, пароль от 8"@) && r is None
                } else {
                    &&& started(s, n, if mode == AuthMode::Login { "вход..."@ } else { "регистрация..."@ })
                    &&& r matches Some(NetRequest::Auth { mode: m, username, password })
                    &&& m == mode && username@ == name && password == s.password_input
                }
            }

/// A join press: the typed code, trimmed and upper-cased, must have at least 4 bytes.
pub open spec fn join_pressed(s: ClientSession, n: ClientSession, r: Option<NetRequest>) -> bool {

                
                let code = unicode_upper(trim(s.room_code_input@));
                if s.inflight > 0 {
                    n == s && r is None
                } else if (vstd::utf8::encode_utf8(code).len() as usize) < 4 {
                    shows_error(s, n, "введите код комнаты"@) && r is None
                } else if s.token is None {
                    shows_error(s, n, "сначала войдите"@) && r is None
                } else {
                    &&& started(s, n, "вход в лобби..."@)
                    &&& r matches Some(NetRequest::JoinRoom { code: c, token })
                    &&& c@ == code && Some(token) == s.token
                }
            }

pub open spec fn ready_pressed(s: ClientSession, ready: bool, n: ClientSession, r: Option<NetRequest>) -> bool {
    room_request(s, n, r, if ready { "готовность..."@ } else { "снятие готовности..."@ },
        |q: NetRequest, code: Seq<char>, token: String|
            q matches NetRequest::Ready { code: c, ready: x, token: t } && c@ == code && x == ready && t == token)
}

/// A start press: only the GM, and only once the lobby can start.
pub open spec fn game_pressed(s: ClientSession, n: ClientSession, r: Option<NetRequest>) -> bool {

                
                if s.inflight > 0 {
                    n == s && r is None
                } else if !session_is_gm(s) {
                    shows_error(s, n, "стартовать может только ГМ"@) && r is None
                } else if !(s.lobby matches Some(l) && l.can_start) {
                    shows_error(s, n, "нужно 4+ готовых игрока"@) && r is None
                } else {
                    room_request(s, n, r, "старт партии..."@,
                        |q: NetRequest, code: Seq<char>, token: String|
                            q matches NetRequest::Start { code: c, token: t } && c@ == code && t == token)
                }
            }

pub open spec fn refresh_pressed(s: ClientSession, n: ClientSession, r: Option<NetRequest>) -> bool {
    room_request(s, n, r, "обновление..."@,
        |q: NetRequest, code: Seq<char>, token: String|
            q matches NetRequest::RefreshLobby { code: c, token: t } && c@ == code && t == token)
}

pub open spec fn play_pressed(s: ClientSession, msg: ClientMsg, status: Seq<char>, n: ClientSession, r: Option<NetRequest>) -> bool {
    room_request(s, n, r, status,
        |q: NetRequest, code: Seq<char>, token: String|
            q matches NetRequest::Action { code: c, token: t, msg: m } && c@ == code && t == token && m == msg)
}

/// Opening a lobby needs a token; it is not held back by a request in flight.
pub open spec fn create_pressed(s: ClientSession, n: ClientSession, r: Option<NetRequest>) -> bool {
    match s.token {
        None => shows_error(s, n, "сначала войдите"@) && r is None,
        Some(t) => started(s, n, "создание лобби..."@) && r == Some(NetRequest::CreateRoom { token: t }),
    }
}

/// What a button press does.
pub open spec fn pressed(s: ClientSession, action: UiAction, n: ClientSession, r: Option<NetRequest>) -> bool {
    match action {
        UiAction::Focus(field) => n == (ClientSession { focused: field, ui_version: bump(s.ui_version), ..s }) && r is None,
        UiAction::Login => auth_pressed(s, AuthMode::Login, n, r),
        UiAction::Register => auth_pressed(s, AuthMode::Register, n, r),
        UiAction::Logout => logged_out(s, n) && r is None,
        UiAction::CreateRoom => create_pressed(s, n, r),
        UiAction::JoinRoom => join_pressed(s, n, r),
        UiAction::Ready => ready_pressed(s, true, n, r),
        UiAction::Unready => ready_pressed(s, false, n, r),
        UiAction::Start => game_pressed(s, n, r),
        UiAction::RefreshLobby => refresh_pressed(s, n, r),
        UiAction::RollD20Location => play_pressed(s, ClientMsg::RollD20Location, "бросок D20: локация..."@, n, r),
        UiAction::DrawCcc => play_pressed(s, ClientMsg::DrawCcc, "вытягиваем ККК..."@, n, r),
        UiAction::RollD20Hex => play_pressed(s, ClientMsg::RollD20Hex, "бросок D20: гекс..."@, n, r),
        UiAction::RollD6Move => play_pressed(s, ClientMsg::RollD6Move, "бросок D6: ОД..."@, n, r),
        UiAction::MoveToken { q, r: row } => play_pressed(s, ClientMsg::MoveToken { to: HexCoord { q, r: row } }, "ход токена..."@, n, r),
    }
}

/// What Enter does on each screen.
pub open spec fn entered(s: ClientSession, n: ClientSession, r: Option<NetRequest>) -> bool {
    match s.app_state {
        AppState::Auth => auth_pressed(s, AuthMode::Login, n, r),
        AppState::Lobby => join_pressed(s, n, r),
        AppState::Playing => refresh_pressed(s, n, r),
    }
}

impl ClientSession {
    fn room_code(&self) -> (r: Option<String>)
        ensures
            match session_code(*self) {
                Some(c) => r matches Some(x) && x@ == c,
                None => r is None,
            },
    {
        match &self.lobby {
            Some(l) => Some(l.code.clone()),
            None => {
                let t = trimmed(self.room_code_input.as_str());
                if t.unicode_len() == 0 {
                    None
                } else {
                    Some(to_upper(t.as_str()))
                }
            },
        }
    }

    /// The request for the current room, after the checks of `room_request`.
    fn begin_room_request(&mut self, status: &str) -> (r: Option<(String, String)>)
        requires
            old(self).inflight == 0,
        ensures
            old(self).token is None ==> (shows_error(*old(self), *final(self), "сначала войдите"@) && r is None),
            old(self).token is Some && session_code(*old(self)) is None ==> (shows_error(*old(self), *final(self), "нет активной комнаты"@) && r is None),
            old(self).token is Some && session_code(*old(self)) is Some ==> started(*old(self), *final(self), status@),
            old(self).token is Some && session_code(*old(self)) is Some ==> (r matches Some((code, token))
                && code@ == session_code(*old(self))->0 && Some(token) == old(self).token),
    {
        proof {
            reveal_strlit("сначала войдите");
            reveal_strlit("нет активной комнаты");
        }
        let token = match &self.token {
            Some(t) => t.clone(),
            None => {
                self.set_error("сначала войдите");
                return None;
            },
        };
        let code = match self.room_code() {
            Some(c) => c,
            None => {
                self.set_error("нет активной комнаты");
                return None;
            },
        };
        self.begin_request(status);
        Some((code, token))
    }

    /// Sign in or register with the typed name (trimmed) and password, which must have
    /// at least 3 and 8 bytes.
    pub fn start_auth(&mut self, mode: AuthMode) -> (r: Option<NetRequest>)
        ensures
            auth_pressed(*old(self), mode, *final(self), r),
    {
        if self.inflight > 0 {
            return None;
        }
        let username = trimmed(self.username_input.as_str());
        let password = self.password_input.clone();
        if username.as_str().len() < 3 || password.as_str().len() < 8 {
            self.set_error("логин от 3 символов, пароль от 8");
            return None;
        }
        let status = match mode {
            AuthMode::Login => "вход...",
            AuthMode::Register => "регистрация...",
        };
        self.begin_request(status);
        Some(NetRequest::Auth { mode, username, password })
    }

    /// Join the room whose code is typed (trimmed, upper-cased, at least 4 bytes).
    pub fn start_join(&mut self) -> (r: Option<NetRequest>)
        ensures
            join_pressed(*old(self), *final(self), r),
    {
        if self.inflight > 0 {
            return None;
        }
        let t = trimmed(self.room_code_input.as_str());
        let code = to_upper(t.as_str());
        if code.as_str().len() < 4 {
            self.set_error("введите код комнаты");
            return None;
        }
        let token = match &self.token {
            Some(t) => t.clone(),
            None => {
                self.set_error("сначала войдите");
                return None;
            },
        };
        self.begin_request("вход в лобби...");
        Some(NetRequest::JoinRoom { code, token })
    }

    /// Mark oneself ready or not ready in the current room.
    pub fn start_ready(&mut self, ready: bool) -> (r: Option<NetRequest>)
        ensures
            ready_pressed(*old(self), ready, *final(self), r),
    {
        if self.inflight > 0 {
            return None;
        }
        let status = if ready { "готовность..." } else { "снятие готовности..." };
        match self.begin_room_request(status) {
            Some((code, token)) => Some(NetRequest::Ready { code, ready, token }),
            None => None,
        }
    }

    /// Start the game: only the GM, and only once the lobby can start.
    pub fn start_game(&mut self) -> (r: Option<NetRequest>)
        ensures
            game_pressed(*old(self), *final(self), r),
    {
        if self.inflight > 0 {
            return None;
        }
        if !self.me_is_gm() {
            self.set_error("стартовать может только ГМ");
            return None;
        }
        let can_start = match &self.lobby {
            Some(l) => l.can_start,
            None => false,
        };
        if !can_start {
            self.set_error("нужно 4+ готовых игрока");
            return None;
        }
        match self.begin_room_request("старт партии...") {
            Some((code, token)) => Some(NetRequest::Start { code, token }),
            None => None,
        }
    }

    /// Fetch the current room again.
    pub fn start_refresh(&mut self) -> (r: Option<NetRequest>)
        ensures
            refresh_pressed(*old(self), *final(self), r),
    {
        if self.inflight > 0 {
            return None;
        }
        match self.begin_room_request("обновление...") {
            Some((code, token)) => Some(NetRequest::RefreshLobby { code, token }),
            None => None,
        }
    }

    /// Send a game action for the current room.
    pub fn start_play_action(&mut self, msg: ClientMsg, status: &str) -> (r: Option<NetRequest>)
        ensures
            play_pressed(*old(self), msg, status@, *final(self), r),
    {
        if self.inflight > 0 {
            return None;
        }
        match self.begin_room_request(status) {
            Some((code, token)) => Some(NetRequest::Action { code, token, msg }),
            None => None,
        }
    }

    /// Open a new lobby (the request is not held back by one in flight).
    pub fn start_create_room(&mut self) -> (r: Option<NetRequest>)
        requires
            old(self).inflight < usize::MAX,
        ensures
            create_pressed(*old(self), *final(self), r),
    {
        let token = match &self.token {
            Some(t) => t.clone(),
            None => {
                self.set_error("сначала войдите");
                return None;
            },
        };
        self.begin_request("создание лобби...");
        Some(NetRequest::CreateRoom { token })
    }

    /// A periodic health check: the server is being checked again.
    pub fn start_health_check(&mut self) -> (r: NetRequest)
        ensures
            *final(self) == (ClientSession { health: HealthState::Checking, ui_version: bump(old(self).ui_version), ..*old(self) }),
            r is Health,
    {
        self.health = HealthState::Checking;
        self.mark_dirty();
        NetRequest::Health
    }

    /// A pressed button.
    pub fn press(&mut self, action: UiAction) -> (r: Option<NetRequest>)
        requires
            old(self).inflight < usize::MAX,
        ensures
            pressed(*old(self), action, *final(self), r),
    {
        match action {
            UiAction::Focus(field) => {
                self.focused = field;
                self.mark_dirty();
                None
            },
            UiAction::Login => self.start_auth(AuthMode::Login),
            UiAction::Register => self.start_auth(AuthMode::Register),
            UiAction::Logout => {
                self.logout();
                None
            },
            UiAction::CreateRoom => self.start_create_room(),
            UiAction::JoinRoom => self.start_join(),
            UiAction::Ready => self.start_ready(true),
            UiAction::Unready => self.start_ready(false),
            UiAction::Start => self.start_game(),
            UiAction::RefreshLobby => self.start_refresh(),
            UiAction::RollD20Location => self.start_play_action(ClientMsg::RollD20Location, "бросок D20: локация..."),
            UiAction::DrawCcc => self.start_play_action(ClientMsg::DrawCcc, "вытягиваем ККК..."),
            UiAction::RollD20Hex => self.start_play_action(ClientMsg::RollD20Hex, "бросок D20: гекс..."),
            UiAction::RollD6Move => self.start_play_action(ClientMsg::RollD6Move, "бросок D6: ОД..."),
            UiAction::MoveToken { q, r } => self.start_play_action(
                ClientMsg::MoveToken { to: HexCoord { q, r } },
                "ход токена...",
            ),
        }
    }
}

/// An ASCII letter or digit.
pub open spec fn ascii_alphanumeric(c: char) -> bool {
    ('0' <= c <= '9') || ('a' <= c <= 'z') || ('A' <= c <= 'Z')
}

fn upper_ascii(c: char) -> (u: char)
    requires
        ascii_alphanumeric(c),
    ensures
        u == ascii_upper(c),
{
    if 'a' <= c && c <= 'z' {
        let code: u8 = (c as u32 - 32) as u8;
        code as char
    } else {
        c
    }
}

/// The session after typing a character: control characters are ignored; the focused
/// field takes it while it has room (a username 32 characters, a password 128, a room
/// code 6), and a room code only takes ASCII letters and digits, upper-cased.
pub open spec fn typed(s: ClientSession, c: char, n: ClientSession) -> bool {
    if is_control_char(c) {
        n == s
    } else {
        match s.focused {
            FocusField::Username => if s.username_input@.len() < 32 {
                n == (ClientSession { username_input: n.username_input, ui_version: bump(s.ui_version), ..s })
                    && n.username_input@ == s.username_input@.push(c)
            } else {
                n == s
            },
            FocusField::Password => if s.password_input@.len() < 128 {
                n == (ClientSession { password_input: n.password_input, ui_version: bump(s.ui_version), ..s })
                    && n.password_input@ == s.password_input@.push(c)
            } else {
                n == s
            },
            FocusField::RoomCode => if s.room_code_input@.len() < 6 && ascii_alphanumeric(c) {
                n == (ClientSession { room_code_input: n.room_code_input, ui_version: bump(s.ui_version), ..s })
                    && n.room_code_input@ == s.room_code_input@.push(ascii_upper(c))
            } else {
                n == s
            },
        }
    }
}

/// The session after a backspace: the focused field loses its last character.
pub open spec fn erased(s: ClientSession, n: ClientSession) -> bool {
    match s.focused {
        FocusField::Username => n == (ClientSession { username_input: n.username_input, ui_version: bump(s.ui_version), ..s })
            && n.username_input@ == (if s.username_input@.len() > 0 { s.username_input@.drop_last() } else { s.username_input@ }),
        FocusField::Password => n == (ClientSession { password_input: n.password_input, ui_version: bump(s.ui_version), ..s })
            && n.password_input@ == (if s.password_input@.len() > 0 { s.password_input@.drop_last() } else { s.password_input@ }),
        FocusField::RoomCode => n == (ClientSession { room_code_input: n.room_code_input, ui_version: bump(s.ui_version), ..s })
            && n.room_code_input@ == (if s.room_code_input@.len() > 0 { s.room_code_input@.drop_last() } else { s.room_code_input@ }),
    }
}

impl ClientSession {
    /// A typed character.
    pub fn type_char(&mut self, c: char)
        ensures
            typed(*old(self), c, *final(self)),
    {
        if char_is_control(c) {
            return;
        }
        match self.focused {
            FocusField::Username => {
                if self.username_input.as_str().unicode_len() < 32 {
                    push_char(&mut self.username_input, c);
                    self.mark_dirty();
                }
            },
            FocusField::Password => {
                if self.password_input.as_str().unicode_len() < 128 {
                    push_char(&mut self.password_input, c);
                    self.mark_dirty();
                }
            },
            FocusField::RoomCode => {
                let ok = ('0' <= c && c <= '9') || ('a' <= c && c <= 'z') || ('A' <= c && c <= 'Z');
                if self.room_code_input.as_str().unicode_len() < 6 && ok {
                    let u = upper_ascii(c);
                    push_char(&mut self.room_code_input, u);
                    self.mark_dirty();
                }
            },
        }
    }

    /// A backspace.
    pub fn erase_char(&mut self)
        ensures
            erased(*old(self), *final(self)),
    {
        match self.focused {
            FocusField::Username => {
                let _ = pop_char(&mut self.username_input);
            },
            FocusField::Password => {
                let _ = pop_char(&mut self.password_input);
            },
            FocusField::RoomCode => {
                let _ = pop_char(&mut self.room_code_input);
            },
        }
        self.mark_dirty();
    }

    /// Enter: sign in on the sign-in screen, join from the lobby screen, refresh in play.
    pub fn press_enter(&mut self) -> (r: Option<NetRequest>)
        ensures
            entered(*old(self), *final(self), r),
    {
        match self.app_state {
            AppState::Auth => self.start_auth(AuthMode::Login),
            AppState::Lobby => self.start_join(),
            AppState::Playing => self.start_refresh(),
        }
    }
}

/// What the session does with a report from the network. A health report and a
/// socket status or error of the current socket generation are shown (reports of an
/// older socket are dropped); a sign-in stores the token and user and shows the lobby
/// screen; a lobby is shown, and opens a new socket generation when asked to and a
/// token is held; a failure is shown as an error.
pub open spec fn after_event(s: ClientSession, e: NetEvent, n: ClientSession, r: Option<NetRequest>) -> bool {
    match e {
        NetEvent::Health { state, message } => {
            &&& n == (ClientSession { health: state, status: message, ui_version: bump(s.ui_version), ..s })
            &&& r is None
        },
        NetEvent::Authenticated { token, user_id, username } => {
            &&& n == (ClientSession {
                token: Some(token),
                user_id: Some(user_id),
                display_name: Some(username),
                app_state: AppState::Lobby,
                inflight: one_less(s.inflight),
                status: n.status,
                ui_version: bump(s.ui_version),
                ..s
            })
            &&& n.status@ == "авторизация ок"@
            &&& r is None
        },
        NetEvent::Lobby { lobby, connect_ws } => {
            let open = connect_ws && s.token is Some;
            &&& n == (ClientSession {
                inflight: one_less(s.inflight),
                status: n.status,
                room_code_input: n.room_code_input,
                app_state: if lobby.phase@ == "playing"@ { AppState::Playing } else { AppState::Lobby },
                lobby: Some(lobby),
                error: None,
                ui_version: bump(s.ui_version),
                ws_generation: if open { bump(s.ws_generation) } else { s.ws_generation },
                ..s
            })
            &&& n.status@ == "лобби обновлено"@
            &&& n.room_code_input@ == lobby.code@
            &&& if open {
                r == Some(NetRequest::OpenSocket { code: lobby.code, token: s.token->0, generation: bump(s.ws_generation) })
            } else {
                r is None
            }
        },
        NetEvent::WsStatus { generation, message } => {
            &&& n == (if generation == s.ws_generation {
                ClientSession { status: message, ui_version: bump(s.ui_version), ..s }
            } else {
                s
            })
            &&& r is None
        },
        NetEvent::WsError { generation, message } => {
            &&& n == (if generation == s.ws_generation {
                ClientSession { error: Some(message), ui_version: bump(s.ui_version), ..s }
            } else {
                s
            })
            &&& r is None
        },
        NetEvent::Error { message } => shows_error(s, n, message@) && r is None,
    }
}

impl ClientSession {
    /// Applies a report from the network; the request it returns is a socket to open.
    pub fn apply_net_event(&mut self, event: NetEvent) -> (r: Option<NetRequest>)
        ensures
            after_event(*old(self), event, *final(self), r),
    {
        match event {
            NetEvent::Health { state, message } => {
                self.health = state;
                self.status = message;
                self.mark_dirty();
                None
            },
            NetEvent::Authenticated { token, user_id, username } => {
                self.token = Some(token);
                self.user_id = Some(user_id);
                self.display_name = Some(username);
                self.app_state = AppState::Lobby;
                self.finish_request("авторизация ок");
                None
            },
            NetEvent::Lobby { lobby, connect_ws } => {
                let code = lobby.code.clone();
                self.inflight = if self.inflight > 0 { self.inflight - 1 } else { 0 };
                self.status = String::from_str("лобби обновлено");
                self.set_lobby(lobby);
                if connect_ws {
                    match &self.token {
                        Some(t) => {
                            let token = t.clone();
                            self.ws_generation = self.ws_generation.wrapping_add(1);
                            Some(NetRequest::OpenSocket { code, token, generation: self.ws_generation })
                        },
                        None => None,
                    }
                } else {
                    None
                }
            },
            NetEvent::WsStatus { generation, message } => {
                if generation == self.ws_generation {
                    self.status = message;
                    self.mark_dirty();
                }
                None
            },
            NetEvent::WsError { generation, message } => {
                if generation == self.ws_generation {
                    self.error = Some(message);
                    self.mark_dirty();
                }
                None
            },
            NetEvent::Error { message } => {
                self.set_error(message.as_str());
                None
            },
        }
    }
}

} // verus!
