//! The client's session state: which screen it shows, the request in flight, and what
//! it knows of the signed-in user and the lobby.
use vstd::prelude::*;

use crate::ids::uuid_hyphenated;
use crate::ids::uuid_text;
use crate::protocol::LobbyView;
use crate::text::{chars_of, same_text};

verus! {

#[derive(Debug, Clone, Copy, PartialEq, Eq, Structural)]
pub enum AppState {
    Auth,
    Lobby,
    Playing,
}

#[derive(Debug, Clone, Copy, PartialEq, Eq, Structural)]
pub enum FocusField {
    Username,
    Password,
    RoomCode,
}

#[derive(Debug, Clone, Copy, PartialEq, Eq, Structural)]
pub enum HealthState {
    Checking,
    Online,
    Offline,
}

impl Default for HealthState {
    fn default() -> (h: HealthState)
        ensures
            h == HealthState::Checking,
    {
        HealthState::Checking
    }
}

#[derive(Debug, Clone)]
pub struct ClientSession {
    pub app_state: AppState,
    pub token: Option<String>,
    pub user_id: Option<String>,
    pub display_name: Option<String>,
    pub username_input: String,
    pub password_input: String,
    pub room_code_input: String,
    pub focused: FocusField,
    pub health: HealthState,
    pub error: Option<String>,
    pub status: String,
    pub lobby: Option<LobbyView>,
    pub inflight: usize,
    pub ws_generation: u64,
    pub ui_version: u64,
}

/// The code of one character with ASCII upper case folded to lower case.
pub open spec fn ascii_lower(c: char) -> u32 {
    if 'A' <= c <= 'Z' { ((c as u32) + 32) as u32 } else { c as u32 }
}

/// Equal up to ASCII case, as `str::eq_ignore_ascii_case` compares.
pub open spec fn eq_ignoring_ascii_case(a: Seq<char>, b: Seq<char>) -> bool {
    a.len() == b.len() && forall|i: int| 0 <= i < a.len() ==> ascii_lower(a[i]) == ascii_lower(b[i])
}

fn lower_char(c: char) -> (r: u32)
    ensures
        r == ascii_lower(c),
{
    let u = c as u32;
    if 'A' <= c && c <= 'Z' {
        u + 32
    } else {
        u
    }
}

/// Whether two user-id texts name the same user (ASCII case ignored).
pub fn same_user_id(left: &str, right: &str) -> (b: bool)
    ensures
        b == eq_ignoring_ascii_case(left@, right@),
{
    let a = chars_of(left);
    let b = chars_of(right);
    if a.len() != b.len() {
        return false;
    }
    let mut i: usize = 0;
    while i < a.len()
        invariant
            i <= a@.len(),
            a@.len() == b@.len(),
            a@ == left@,
            b@ == right@,
            forall|j: int| 0 <= j < i ==> ascii_lower(a@[j]) == ascii_lower(b@[j]),
        decreases a@.len() - i,
    {
        if lower_char(a[i]) != lower_char(b[i]) {
            return false;
        }
        i = i + 1;
    }
    true
}

/// Whether the lobby lists the signed-in user as GM.
pub open spec fn session_is_gm(s: ClientSession) -> bool {
    match (s.lobby, s.user_id) {
        (Some(l), Some(me)) => exists|i: int| 0 <= i < l.players@.len() && l.players@[i].is_gm
            && eq_ignoring_ascii_case(uuid_hyphenated(l.players@[i].user_id), me@),
        _ => false,
    }
}

/// Index of the first listed player that is the signed-in user, at or after `i`, or -1.
pub open spec fn me_index_from(l: LobbyView, me: Seq<char>, i: nat) -> int
    decreases l.players@.len() - i,
{
    if i >= l.players@.len() {
        -1
    } else if eq_ignoring_ascii_case(uuid_hyphenated(l.players@[i as int].user_id), me) {
        i as int
    } else {
        me_index_from(l, me, i + 1)
    }
}

proof fn lemma_me_index_from(l: LobbyView, me: Seq<char>, i: nat)
    ensures
        me_index_from(l, me, i) == -1 || i <= me_index_from(l, me, i) < l.players@.len(),
    decreases l.players@.len() - i,
{
    if i < l.players@.len() {
        lemma_me_index_from(l, me, i + 1);
    }
}

/// Whether the signed-in user's (first) row in the lobby is ready.
pub open spec fn session_is_ready(s: ClientSession) -> bool {
    match (s.lobby, s.user_id) {
        (Some(l), Some(me)) => {
            let k = me_index_from(l, me@, 0);
            k >= 0 && l.players@[k].ready
        },
        _ => false,
    }
}

/// Signed out: the sign-in screen with no token, user, password or lobby, and any
/// socket generation superseded.
pub open spec fn logged_out(s: ClientSession, n: ClientSession) -> bool {
    &&& n == (ClientSession {
        app_state: AppState::Auth,
        token: None,
        user_id: None,
        display_name: None,
        password_input: n.password_input,
        lobby: None,
        ws_generation: vstd::wrapping::u64_specs::wrapping_add(s.ws_generation, 1),
        status: n.status,
        ui_version: vstd::wrapping::u64_specs::wrapping_add(s.ui_version, 1),
        ..s
    })
    &&& n.password_input@.len() == 0
    &&& n.status@ == "сессия завершена"@
}

impl ClientSession {
    /// The session a client starts with, signed in with a stored token if it has one.
    pub fn new(token: Option<String>) -> (s: ClientSession)
        ensures
            s.app_state == AppState::Auth,
            s.token == token,
            s.user_id is None,
            s.display_name is None,
            s.focused == FocusField::Username,
            s.health == HealthState::Checking,
            s.error is None,
            s.status@ == "проверка сервера..."@,
            s.lobby is None,
            s.inflight == 0,
            s.ws_generation == 0,
            s.ui_version == 0,
    {
        ClientSession {
            app_state: AppState::Auth,
            token,
            user_id: None,
            display_name: None,
            username_input: String::new(),
            password_input: String::new(),
            room_code_input: String::new(),
            focused: FocusField::Username,
            health: HealthState::Checking,
            error: None,
            status: String::from_str("проверка сервера..."),
            lobby: None,
            inflight: 0,
            ws_generation: 0,
            ui_version: 0,
        }
    }

    /// Asks for a redraw: the UI version moves on (wrapping).
    pub fn mark_dirty(&mut self)
        ensures
            *final(self) == (ClientSession {
                ui_version: vstd::wrapping::u64_specs::wrapping_add(old(self).ui_version, 1),
                ..*old(self)
            }),
    {
        self.ui_version = self.ui_version.wrapping_add(1);
    }

    /// A request failed: the error is shown and the request no longer counts.
    pub fn set_error(&mut self, message: &str)
        ensures
            *final(self) == (ClientSession {
                error: final(self).error,
                inflight: if old(self).inflight > 0 { (old(self).inflight - 1) as usize } else { 0 },
                ui_version: vstd::wrapping::u64_specs::wrapping_add(old(self).ui_version, 1),
                ..*old(self)
            }),
            final(self).error matches Some(e) && e@ == message@,
    {
        self.error = Some(String::from_str(message));
        self.inflight = self.inflight.saturating_sub(1);
        self.mark_dirty();
    }

    /// A request starts: it counts as in flight, the status is shown and the error cleared.
    pub fn begin_request(&mut self, status: &str)
        requires
            old(self).inflight < usize::MAX,
        ensures
            *final(self) == (ClientSession {
                inflight: (old(self).inflight + 1) as usize,
                status: final(self).status,
                error: None,
                ui_version: vstd::wrapping::u64_specs::wrapping_add(old(self).ui_version, 1),
                ..*old(self)
            }),
            final(self).status@ == status@,
    {
        self.inflight = self.inflight + 1;
        self.status = String::from_str(status);
        self.error = None;
        self.mark_dirty();
    }

    /// A request ends: it no longer counts and its status is shown.
    pub fn finish_request(&mut self, status: &str)
        ensures
            *final(self) == (ClientSession {
                inflight: if old(self).inflight > 0 { (old(self).inflight - 1) as usize } else { 0 },
                status: final(self).status,
                ui_version: vstd::wrapping::u64_specs::wrapping_add(old(self).ui_version, 1),
                ..*old(self)
            }),
            final(self).status@ == status@,
    {
        self.inflight = self.inflight.saturating_sub(1);
        self.status = String::from_str(status);
        self.mark_dirty();
    }

    /// A lobby arrived: the client shows the game when it is playing, else the lobby.
    pub fn set_lobby(&mut self, lobby: LobbyView)
        ensures
            *final(self) == (ClientSession {
                room_code_input: final(self).room_code_input,
                app_state: if lobby.phase@ == "playing"@ { AppState::Playing } else { AppState::Lobby },
                lobby: Some(lobby),
                error: None,
                ui_version: vstd::wrapping::u64_specs::wrapping_add(old(self).ui_version, 1),
                ..*old(self)
            }),
            final(self).room_code_input@ == lobby.code@,
    {
        self.room_code_input = lobby.code.clone();
        self.app_state = if same_text(lobby.phase.as_str(), "playing") {
            AppState::Playing
        } else {
            AppState::Lobby
        };
        self.lobby = Some(lobby);
        self.error = None;
        self.mark_dirty();
    }

    /// Signing out: back to the sign-in screen with no token, user, password or lobby,
    /// and any socket generation superseded.
    pub fn logout(&mut self)
        ensures
            logged_out(*old(self), *final(self)),
    {
        self.app_state = AppState::Auth;
        self.token = None;
        self.user_id = None;
        self.display_name = None;
        self.password_input = String::new();
        self.lobby = None;
        self.ws_generation = self.ws_generation.wrapping_add(1);
        self.status = String::from_str("сессия завершена");
        self.mark_dirty();
    }

    pub fn is_busy(&self) -> (b: bool)
        ensures
            b == (self.inflight > 0),
    {
        self.inflight > 0
    }

    pub fn me_is_gm(&self) -> (b: bool)
        ensures
            b == session_is_gm(*self),
    {
        let lobby = match &self.lobby {
            Some(l) => l,
            None => {
                return false;
            },
        };
        let me = match &self.user_id {
            Some(u) => u,
            None => {
                return false;
            },
        };
        let mut i: usize = 0;
        while i < lobby.players.len()
            invariant
                i <= lobby.players@.len(),
                self.lobby == Some(*lobby),
                self.user_id == Some(*me),
                forall|j: int| 0 <= j < i ==> !(lobby.players@[j].is_gm && eq_ignoring_ascii_case(uuid_hyphenated(lobby.players@[j].user_id), me@)),
            decreases lobby.players@.len() - i,
        {
            let player = &lobby.players[i];
            if player.is_gm {
                let id = uuid_text(player.user_id);
                if same_user_id(id.as_str(), me.as_str()) {
                    assert(lobby.players@[i as int].is_gm && eq_ignoring_ascii_case(uuid_hyphenated(lobby.players@[i as int].user_id), me@));
                    return true;
                }
            }
            i = i + 1;
        }
        false
    }

    pub fn me_ready(&self) -> (b: bool)
        ensures
            b == session_is_ready(*self),
    {
        let lobby = match &self.lobby {
            Some(l) => l,
            None => {
                return false;
            },
        };
        let me = match &self.user_id {
            Some(u) => u,
            None => {
                return false;
            },
        };
        proof {
            lemma_me_index_from(*lobby, me@, 0);
        }
        let mut i: usize = 0;
        while i < lobby.players.len()
            invariant
                i <= lobby.players@.len(),
                self.lobby == Some(*lobby),
                self.user_id == Some(*me),
                me_index_from(*lobby, me@, 0) == me_index_from(*lobby, me@, i as nat),
            decreases lobby.players@.len() - i,
        {
            let player = &lobby.players[i];
            let id = uuid_text(player.user_id);
            if same_user_id(id.as_str(), me.as_str()) {
                return player.ready;
            }
            i = i + 1;
        }
        false
    }
}

} // verus!
