//! How the client words what it shows: labels, the history lines, error texts of
//! failed requests, and how socket frames become reports.
use vstd::prelude::*;

use crate::app::unicode_upper;
use crate::client::{eq_ignoring_ascii_case, same_user_id, session_is_gm, session_is_ready, ClientSession, HealthState};
use crate::client_flow::NetEvent;
use crate::hex::HexCoord;
use crate::ids::{uuid_hyphenated, uuid_text};
use crate::protocol::{LobbyPlayerView, LobbyView, ServerMsg};
use crate::history::texts;
use crate::text::{decimal, push_decimal, push_signed, same_text, signed_decimal, take_chars, trim, trimmed, truncated};

verus! {

/// A text, or the placeholder when it is blank.
pub open spec fn or_placeholder(value: Seq<char>, placeholder: Seq<char>) -> Seq<char> {
    if trim(value).len() == 0 { placeholder } else { value }
}

fn text_or<'a>(value: &'a str, placeholder: &'a str) -> (r: &'a str)
    ensures
        r@ == or_placeholder(value@, placeholder@),
{
    let t = trimmed(value);
    if t.unicode_len() == 0 {
        placeholder
    } else {
        value
    }
}

/// A field value in the play view: `-` when blank.
pub fn nonempty(value: &str) -> (r: &str)
    ensures
        r@ == or_placeholder(value@, "-"@),
{
    text_or(value, "-")
}

/// A field value in the lobby view: `уточняется` when blank.
pub fn nonempty_lobby(value: &str) -> (r: &str)
    ensures
        r@ == or_placeholder(value@, "уточняется"@),
{
    text_or(value, "уточняется")
}

/// The lobby's phase as shown: `игра` while playing, `лобби` otherwise.
pub fn phase_label(phase: &str) -> (r: &'static str)
    ensures
        r@ == (if phase@ == "playing"@ { "игра"@ } else { "лобби"@ }),
{
    if same_text(phase, "playing") {
        "игра"
    } else {
        "лобби"
    }
}

/// A travel stage as shown; stages without a label are shown by their wire name.
pub open spec fn stage_text(stage: Seq<char>) -> Seq<char> {
    if stage == "need_location"@ {
        "нужна локация"@
    } else if stage == "need_sector"@ {
        "нужен сектор"@
    } else if stage == "need_hex"@ {
        "нужен гекс"@
    } else if stage == "need_d6"@ {
        "нужен D6"@
    } else if stage == "need_move"@ {
        "движение"@
    } else {
        stage
    }
}

pub fn stage_label(stage: &str) -> (r: &str)
    ensures
        r@ == stage_text(stage@),
{
    if same_text(stage, "need_location") {
        "нужна локация"
    } else if same_text(stage, "need_sector") {
        "нужен сектор"
    } else if same_text(stage, "need_hex") {
        "нужен гекс"
    } else if same_text(stage, "need_d6") {
        "нужен D6"
    } else if same_text(stage, "need_move") {
        "движение"
    } else {
        stage
    }
}

/// At most `max` characters, with `...` when the text was longer.
pub open spec fn compacted(value: Seq<char>, max: nat) -> Seq<char> {
    if value.len() > max { take_chars(value, max) + "..."@ } else { value }
}

pub fn compact(value: &str, max_chars: usize) -> (r: String)
    ensures
        r@ == compacted(value@, max_chars as nat),
{
    let mut out = truncated(value, max_chars);
    if value.unicode_len() > max_chars {
        out.append("...");
    }
    out
}

/// A hex as `(q, r)`.
pub open spec fn coord_text(h: HexCoord) -> Seq<char> {
    "("@ + signed_decimal(h.q as int) + ", "@ + signed_decimal(h.r as int) + ")"@
}

pub fn coord_label(hex: &HexCoord) -> (r: String)
    ensures
        r@ == coord_text(*hex),
{
    let mut s = String::from_str("(");
    push_signed(&mut s, hex.q as i64);
    s.append(", ");
    push_signed(&mut s, hex.r as i64);
    s.append(")");
    assert(s@ =~= coord_text(*hex));
    s
}

/// The mission line: `Миссия <id>`, followed by ` · <title>` when the title is not blank.
pub open spec fn mission_line(id: u8, title: Seq<char>) -> Seq<char> {
    if trim(title).len() == 0 {
        "Миссия "@ + decimal(id as nat)
    } else {
        "Миссия "@ + decimal(id as nat) + " · "@ + title
    }
}

pub fn mission_title(lobby: &LobbyView) -> (r: String)
    ensures
        r@ == mission_line(lobby.mission_id, lobby.mission_title@),
{
    let mut s = String::from_str("Миссия ");
    push_decimal(&mut s, lobby.mission_id as u64);
    let t = trimmed(lobby.mission_title.as_str());
    if t.unicode_len() > 0 {
        s.append(" · ");
        s.append(lobby.mission_title.as_str());
    }
    s
}

/// A number, or `-` when there is none.
pub open spec fn maybe_number(v: Option<u8>) -> Seq<char> {
    match v {
        Some(x) => decimal(x as nat),
        None => "-"@,
    }
}

fn push_maybe(s: &mut String, v: Option<u8>)
    ensures
        final(s)@ == old(s)@ + maybe_number(v),
{
    match v {
        Some(x) => push_decimal(s, x as u64),
        None => s.append("-"),
    }
}

/// The CCC line of a player: `<tens> / <units> -> <sector>`, each `-` when unknown;
/// just `-` without a player or with none of the three.
pub open spec fn ccc_text(p: Option<LobbyPlayerView>) -> Seq<char> {
    match p {
        None => "-"@,
        Some(p) => if p.ccc_tens is None && p.ccc_units is None && p.sector is None {
            "-"@
        } else {
            maybe_number(p.ccc_tens) + " / "@ + maybe_number(p.ccc_units) + " -> "@ + maybe_number(p.sector)
        },
    }
}

pub fn ccc_label(player: Option<&LobbyPlayerView>) -> (r: String)
    ensures
        r@ == ccc_text(match player { Some(p) => Some(*p), None => None }),
{
    let p = match player {
        Some(p) => p,
        None => {
            return String::from_str("-");
        },
    };
    if p.ccc_tens.is_none() && p.ccc_units.is_none() && p.sector.is_none() {
        return String::from_str("-");
    }
    let mut s = String::new();
    push_maybe(&mut s, p.ccc_tens);
    s.append(" / ");
    push_maybe(&mut s, p.ccc_units);
    s.append(" -> ");
    push_maybe(&mut s, p.sector);
    assert(s@ =~= ccc_text(Some(*p)));
    s
}

/// Index of the first player with this id, at or after `i`, or -1.
pub open spec fn player_index_from(players: Seq<LobbyPlayerView>, id: u128, i: nat) -> int
    decreases players.len() - i,
{
    if i >= players.len() {
        -1
    } else if players[i as int].user_id == id {
        i as int
    } else {
        player_index_from(players, id, i + 1)
    }
}

proof fn lemma_player_index_from(players: Seq<LobbyPlayerView>, id: u128, i: nat)
    ensures
        player_index_from(players, id, i) == -1 || i <= player_index_from(players, id, i) < players.len(),
    decreases players.len() - i,
{
    if i < players.len() {
        lemma_player_index_from(players, id, i + 1);
    }
}

/// Who is on turn: the active display name, else the name of the active player's row,
/// else `-`.
pub open spec fn active_text(l: LobbyView) -> Seq<char> {
    match l.active_display_name {
        Some(n) => n@,
        None => match l.active_user_id {
            Some(id) => {
                let k = player_index_from(l.players@, id, 0);
                if k >= 0 { l.players@[k].display_name@ } else { "-"@ }
            },
            None => "-"@,
        },
    }
}

pub fn active_name(lobby: &LobbyView) -> (r: String)
    ensures
        r@ == active_text(*lobby),
{
    match &lobby.active_display_name {
        Some(n) => {
            return n.clone();
        },
        None => {},
    }
    let id = match lobby.active_user_id {
        Some(id) => id,
        None => {
            return String::from_str("-");
        },
    };
    proof {
        lemma_player_index_from(lobby.players@, id, 0);
    }
    let mut i: usize = 0;
    while i < lobby.players.len()
        invariant
            i <= lobby.players@.len(),
            lobby.active_display_name is None,
            lobby.active_user_id == Some(id),
            player_index_from(lobby.players@, id, 0) == player_index_from(lobby.players@, id, i as nat),
        decreases lobby.players@.len() - i,
    {
        if lobby.players[i].user_id == id {
            return lobby.players[i].display_name.clone();
        }
        i = i + 1;
    }
    String::from_str("-")
}

/// Index of the first player that is the signed-in user, at or after `i`, or -1.
pub open spec fn me_index_from(players: Seq<LobbyPlayerView>, me: Seq<char>, i: nat) -> int
    decreases players.len() - i,
{
    if i >= players.len() {
        -1
    } else if eq_ignoring_ascii_case(uuid_hyphenated(players[i as int].user_id), me) {
        i as int
    } else {
        me_index_from(players, me, i + 1)
    }
}

proof fn lemma_me_index_from(players: Seq<LobbyPlayerView>, me: Seq<char>, i: nat)
    ensures
        me_index_from(players, me, i) == -1 || i <= me_index_from(players, me, i) < players.len(),
    decreases players.len() - i,
{
    if i < players.len() {
        lemma_me_index_from(players, me, i + 1);
    }
}

/// The signed-in user's row of the lobby, if the session knows its user.
pub fn me_player<'a>(session: &ClientSession, lobby: &'a LobbyView) -> (r: Option<&'a LobbyPlayerView>)
    ensures
        match session.user_id {
            None => r is None,
            Some(me) => {
                let k = me_index_from(lobby.players@, me@, 0);
                if k >= 0 { r == Some(&lobby.players@[k]) } else { r is None }
            },
        },
{
    let me = match &session.user_id {
        Some(u) => u,
        None => {
            return None;
        },
    };
    proof {
        lemma_me_index_from(lobby.players@, me@, 0);
    }
    let mut i: usize = 0;
    while i < lobby.players.len()
        invariant
            i <= lobby.players@.len(),
            session.user_id == Some(*me),
            me_index_from(lobby.players@, me@, 0) == me_index_from(lobby.players@, me@, i as nat),
        decreases lobby.players@.len() - i,
    {
        let id = uuid_text(lobby.players[i].user_id);
        if same_user_id(id.as_str(), me.as_str()) {
            return Some(&lobby.players[i]);
        }
        i = i + 1;
    }
    None
}

/// Each non-overlapping occurrence of `pat`, from the left, replaced by `rep`, as
/// `str::replace` does for a non-empty pattern.
pub open spec fn replace_all(s: Seq<char>, pat: Seq<char>, rep: Seq<char>) -> Seq<char>
    recommends
        pat.len() > 0,
    decreases s.len(),
{
    if s.len() == 0 || pat.len() == 0 {
        s
    } else if s.len() >= pat.len() && s.take(pat.len() as int) == pat {
        rep + replace_all(s.skip(pat.len() as int), pat, rep)
    } else {
        seq![s[0]] + replace_all(s.skip(1), pat, rep)
    }
}

fn starts_at(text: &Vec<char>, at: usize, pat: &Vec<char>) -> (b: bool)
    requires
        at <= text@.len(),
    ensures
        b == (text@.len() - at >= pat@.len() && text@.skip(at as int).take(pat@.len() as int) == pat@),
{
    if text.len() - at < pat.len() {
        return false;
    }
    let tl = text.len();
    let mut k: usize = 0;
    while k < pat.len()
        invariant
            k <= pat@.len(),
            tl == text@.len(),
            at + pat@.len() <= text@.len(),
            forall|j: int| 0 <= j < k ==> text@[at + j] == pat@[j],
        decreases pat@.len() - k,
    {
        if text[at + k] != pat[k] {
            assert(text@.skip(at as int).take(pat@.len() as int)[k as int] != pat@[k as int]);
            return false;
        }
        k = k + 1;
    }
    assert(text@.skip(at as int).take(pat@.len() as int) =~= pat@);
    true
}

/// `str::replace` with a non-empty pattern.
pub fn replace_text(s: &str, pat: &str, rep: &str) -> (r: String)
    requires
        pat@.len() > 0,
    ensures
        r@ == replace_all(s@, pat@, rep@),
{
    let text = crate::text::chars_of(s);
    let p = crate::text::chars_of(pat);
    let n = text.len();
    let mut out = String::new();
    let mut i: usize = 0;
    assert(text@.skip(0) =~= text@);
    assert(out@ + replace_all(text@.skip(0), p@, rep@) =~= replace_all(s@, pat@, rep@));
    while i < n
        invariant
            i <= n,
            n == text@.len(),
            text@ == s@,
            p@ == pat@,
            p@.len() > 0,
            out@ + replace_all(text@.skip(i as int), p@, rep@) == replace_all(s@, pat@, rep@),
        decreases n - i,
    {
        let ghost rest = text@.skip(i as int);
        if starts_at(&text, i, &p) {
            out.append(rep);
            proof {
                assert(rest.skip(p@.len() as int) =~= text@.skip(i + p@.len()));
            }
            assert(out@ + replace_all(text@.skip(i + p@.len()), p@, rep@) =~= replace_all(s@, pat@, rep@));
            i = i + p.len();
        } else {
            let one = s.substring_char(i, i + 1);
            out.append(one);
            proof {
                assert(one@ =~= seq![rest[0]]);
                assert(rest.skip(1) =~= text@.skip(i + 1));
            }
            assert(out@ + replace_all(text@.skip(i + 1), p@, rep@) =~= replace_all(s@, pat@, rep@));
            i = i + 1;
        }
    }
    assert(text@.skip(n as int) =~= Seq::<char>::empty());
    assert(out@ =~= replace_all(s@, pat@, rep@));
    out
}

/// A history line as the client shows it.
pub open spec fn history_text(line: Seq<char>) -> Seq<char> {
    if line == "room_created"@ {
        "Комната создана"@
    } else if line.len() >= 14 && line.take(14) == "player_joined:"@ {
        "Игрок вошел: "@ + line.skip(14)
    } else if line.len() >= 13 && line.take(13) == "game_started:"@ {
        "Игра началась"@
    } else {
        replace_all(replace_all(replace_all(line, "ready:"@, "готовность: "@), "true"@, "да"@), "false"@, "нет"@)
    }
}

fn has_prefix(text: &str, prefix: &str) -> (b: bool)
    ensures
        b == (text@.len() >= prefix@.len() && text@.take(prefix@.len() as int) == prefix@),
{
    let t = crate::text::chars_of(text);
    let p = crate::text::chars_of(prefix);
    assert(t@.skip(0) =~= t@);
    starts_at(&t, 0, &p)
}

pub fn format_history(line: &str) -> (r: String)
    ensures
        r@ == history_text(line@),
{
    proof {
        reveal_strlit("player_joined:");
        reveal_strlit("game_started:");
        reveal_strlit("ready:");
        reveal_strlit("true");
        reveal_strlit("false");
    }
    if same_text(line, "room_created") {
        return String::from_str("Комната создана");
    }
    if has_prefix(line, "player_joined:") {
        let n = line.unicode_len();
        let name = line.substring_char(14, n);
        let mut s = String::from_str("Игрок вошел: ");
        s.append(name);
        return s;
    }
    if has_prefix(line, "game_started:") {
        return String::from_str("Игра началась");
    }
    let a = replace_text(line, "ready:", "готовность: ");
    let b = replace_text(a.as_str(), "true", "да");
    replace_text(b.as_str(), "false", "нет")
}

/// The address of a room's socket on the page's host: `wss` under `https`, else `ws`;
/// the code trimmed and upper-cased.
pub open spec fn socket_address(page_protocol: Seq<char>, host: Seq<char>, code: Seq<char>, token: Seq<char>) -> Seq<char> {
    let scheme = if page_protocol.len() >= 5 && page_protocol.take(5) == "https"@ { "wss"@ } else { "ws"@ };
    scheme + "://"@ + host + "/ws/rooms/"@ + unicode_upper(trim(code)) + "?token="@ + token
}

pub fn socket_url(page_protocol: &str, host: &str, code: &str, token: &str) -> (r: String)
    ensures
        r@ == socket_address(page_protocol@, host@, code@, token@),
{
    proof {
        reveal_strlit("https");
    }
    let mut s = if has_prefix(page_protocol, "https") { String::from_str("wss") } else { String::from_str("ws") };
    s.append("://");
    s.append(host);
    s.append("/ws/rooms/");
    let t = trimmed(code);
    let upper = crate::app::to_upper(t.as_str());
    s.append(upper.as_str());
    s.append("?token=");
    s.append(token);
    assert(s@ =~= socket_address(page_protocol@, host@, code@, token@));
    s
}

/// The error text of a failed request: the body's `error` field when the body is JSON
/// with a string there; else `HTTP <status>`, with `: <body>` when the body is not blank.
pub open spec fn failure_text(status: u16, body: Seq<char>, error_field: Option<Seq<char>>) -> Seq<char> {
    match error_field {
        Some(e) => e,
        None => if trim(body).len() == 0 {
            "HTTP "@ + decimal(status as nat)
        } else {
            "HTTP "@ + decimal(status as nat) + ": "@ + body
        },
    }
}

/// What `serde_json::from_str::<serde_json::Value>` of the text finds under `"error"`
/// when it parses and holds a string there.
pub uninterp spec fn json_error_field(text: Seq<char>) -> Option<Seq<char>>;

/// `serde_json::from_str::<serde_json::Value>` on the text, then the string under
/// `"error"`, if any.
#[verifier::external_body]
fn error_field(text: &str) -> (r: Option<String>)
    ensures
        match json_error_field(text@) {
            Some(e) => r matches Some(x) && x@ == e,
            None => r is None,
        },
{
    serde_json::from_str::<serde_json::Value>(text)
        .ok()
        .and_then(|v| v.get("error").and_then(|e| e.as_str()).map(str::to_owned))
}

/// The error text of a failed request, from the error the body names.
pub fn failure_message(status: u16, body: &str, field: Option<String>) -> (r: String)
    ensures
        r@ == failure_text(status, body@, match field { Some(f) => Some(f@), None => None }),
{
    match field {
        Some(e) => e,
        None => {
            let mut s = String::from_str("HTTP ");
            push_decimal(&mut s, status as u64);
            let t = trimmed(body);
            if t.unicode_len() > 0 {
                s.append(": ");
                s.append(body);
            }
            s
        },
    }
}

/// The error text of a failed request.
pub fn extract_error(status: u16, body: &str) -> (r: String)
    ensures
        r@ == failure_text(status, body@, json_error_field(body@)),
{
    let field = error_field(body);
    failure_message(status, body, field)
}

/// How a socket frame reaches the session: a lobby is shown (without opening another
/// socket), a server error becomes a socket error of this generation, an unreadable
/// frame an error with its reason, and any other frame is ignored.
pub fn socket_report(frame: Result<ServerMsg, String>, generation: u64) -> (r: Option<NetEvent>)
    ensures
        match frame {
            Ok(ServerMsg::Lobby(l)) => r == Some(NetEvent::Lobby { lobby: l, connect_ws: false }),
            Ok(ServerMsg::Error { code: _, message }) => r == Some(NetEvent::WsError { generation, message }),
            Ok(_) => r is None,
            Err(why) => r matches Some(NetEvent::WsError { generation: g, message }) && g == generation
                && message@ == "WS JSON: "@ + why@,
        },
{
    match frame {
        Ok(ServerMsg::Lobby(lobby)) => Some(NetEvent::Lobby { lobby, connect_ws: false }),
        Ok(ServerMsg::Error { code: _, message }) => Some(NetEvent::WsError { generation, message }),
        Ok(_) => None,
        Err(why) => {
            let mut message = String::from_str("WS JSON: ");
            message.append(why.as_str());
            Some(NetEvent::WsError { generation, message })
        },
    }
}

/// How the result of a lobby request reaches the session.
pub fn lobby_report(result: Result<LobbyView, String>, connect_ws: bool) -> (r: NetEvent)
    ensures
        match result {
            Ok(l) => r == NetEvent::Lobby { lobby: l, connect_ws },
            Err(message) => r == NetEvent::Error { message },
        },
{
    match result {
        Ok(lobby) => NetEvent::Lobby { lobby, connect_ws },
        Err(message) => NetEvent::Error { message },
    }
}

/// Which buttons of the lobby screen take a press.
#[derive(Debug, Clone, Copy, PartialEq, Eq)]
pub struct LobbyButtons {
    pub create: bool,
    pub join: bool,
    pub ready: bool,
    pub unready: bool,
    pub start: bool,
}

/// The lobby screen's buttons: creating and joining wait for no request in flight;
/// `Готов` and `Не готов` need a lobby and offer the change of the member's own
/// readiness; the GM's start needs a lobby that can start.
pub fn lobby_buttons(session: &ClientSession) -> (b: LobbyButtons)
    ensures
        b.create == (session.inflight == 0),
        b.join == (session.inflight == 0),
        b.ready == (session.lobby is Some && session.inflight == 0 && !session_is_ready(*session)),
        b.unready == (session.lobby is Some && session.inflight == 0 && session_is_ready(*session)),
        b.start == (session_is_gm(*session) && (session.lobby matches Some(l) && l.can_start) && session.inflight == 0),
{
    let idle = !session.is_busy();
    let has_lobby = session.lobby.is_some();
    let me_ready = session.me_ready();
    let can_start = match &session.lobby {
        Some(l) => l.can_start,
        None => false,
    };
    LobbyButtons {
        create: idle,
        join: idle,
        ready: has_lobby && idle && !me_ready,
        unready: has_lobby && idle && me_ready,
        start: session.me_is_gm() && can_start && idle,
    }
}

/// The line under a panel: the error when there is one, else the status; the flag
/// tells an error.
pub fn notice(session: &ClientSession) -> (r: (String, bool))
    ensures
        session.error matches Some(e) ==> r.0@ == e@ && r.1,
        session.error is None ==> r.0@ == session.status@ && !r.1,
{
    match &session.error {
        Some(e) => (e.clone(), true),
        None => (session.status.clone(), false),
    }
}

/// An hour of the day with two digits.
pub open spec fn two_digits(n: nat) -> Seq<char> {
    if n < 10 { "0"@ + decimal(n) } else { decimal(n) }
}

/// The tablet's turn line: who is on turn, the day and hour, and the seats taken.
pub open spec fn turn_line(l: LobbyView) -> Seq<char> {
    "Ходит: "@ + active_text(l) + " · День "@ + decimal(l.game_day as nat) + ", "@ + two_digits(l.game_hour as nat)
        + ":00 · игроков "@ + decimal(l.player_count as nat) + "/"@ + decimal(l.max_players as nat)
}

pub fn turn_status(lobby: &LobbyView) -> (r: String)
    ensures
        r@ == turn_line(*lobby),
{
    let mut s = String::from_str("Ходит: ");
    let who = active_name(lobby);
    s.append(who.as_str());
    s.append(" · День ");
    push_decimal(&mut s, lobby.game_day as u64);
    s.append(", ");
    if lobby.game_hour < 10 {
        s.append("0");
    }
    push_decimal(&mut s, lobby.game_hour as u64);
    s.append(":00 · игроков ");
    push_decimal(&mut s, lobby.player_count as u64);
    s.append("/");
    push_decimal(&mut s, lobby.max_players as u64);
    assert(s@ =~= turn_line(*lobby));
    s
}

/// A squad row: name (with ` [ГМ]` for the GM), whether the player is on turn, the
/// location, sector, hex, target and movement points, `-` for what is not set.
pub open spec fn roster_text(l: LobbyView, p: LobbyPlayerView) -> Seq<char> {
    p.display_name@ + (if p.is_gm { " [ГМ]"@ } else { Seq::empty() })
        + " · "@ + (if l.active_user_id == Some(p.user_id) { "ходит"@ } else { "ждет"@ })
        + " · "@ + (match p.location { Some(loc) => loc@, None => "-"@ })
        + " · сектор "@ + (match p.sector { Some(n) => decimal(n as nat), None => "-"@ })
        + " · гекс "@ + coord_text(p.hex)
        + " · цель "@ + (match p.target_hex { Some(h) => coord_text(h), None => "-"@ })
        + " · ОД "@ + decimal(p.move_points as nat)
}

pub fn roster_line(lobby: &LobbyView, player: &LobbyPlayerView) -> (r: String)
    ensures
        r@ == roster_text(*lobby, *player),
{
    let mut s = player.display_name.clone();
    if player.is_gm {
        s.append(" [ГМ]");
    }
    s.append(" · ");
    let active = match lobby.active_user_id {
        Some(id) => id == player.user_id,
        None => false,
    };
    if active {
        s.append("ходит");
    } else {
        s.append("ждет");
    }
    s.append(" · ");
    match &player.location {
        Some(loc) => s.append(loc.as_str()),
        None => s.append("-"),
    }
    s.append(" · сектор ");
    match player.sector {
        Some(n) => push_decimal(&mut s, n as u64),
        None => s.append("-"),
    }
    s.append(" · гекс ");
    let here = coord_label(&player.hex);
    s.append(here.as_str());
    s.append(" · цель ");
    match player.target_hex {
        Some(h) => {
            let there = coord_label(&h);
            s.append(there.as_str());
        },
        None => s.append("-"),
    }
    s.append(" · ОД ");
    push_decimal(&mut s, player.move_points as u64);
    assert(s@ =~= roster_text(*lobby, *player));
    s
}

/// The values of the tablet's field grid, in its order: call sign, location, sector,
/// CCC, current hex, target hex, movement points, stage (each `-` without the
/// viewer's row or the value), then who is on turn and the mission number.
pub open spec fn field_texts(me: Option<LobbyPlayerView>, l: LobbyView) -> Seq<Seq<char>> {
    seq![
        match me { Some(p) => p.display_name@, None => "-"@ },
        match me { Some(p) => match p.location { Some(x) => x@, None => "-"@ }, None => "-"@ },
        match me { Some(p) => maybe_number(p.sector), None => "-"@ },
        ccc_text(me),
        match me { Some(p) => coord_text(p.hex), None => "-"@ },
        match me { Some(p) => match p.target_hex { Some(h) => coord_text(h), None => "-"@ }, None => "-"@ },
        match me { Some(p) => decimal(p.move_points as nat), None => "-"@ },
        match me { Some(p) => stage_text(p.travel_stage@), None => "-"@ },
        active_text(l),
        decimal(l.mission_id as nat),
    ]
}

pub fn field_values(me: Option<&LobbyPlayerView>, lobby: &LobbyView) -> (v: Vec<String>)
    ensures
        texts(v@) == field_texts(match me { Some(p) => Some(*p), None => None }, *lobby),
{
    let ghost mp = match me { Some(p) => Some(*p), None => None };
    let name = match me {
        Some(p) => p.display_name.clone(),
        None => String::from_str("-"),
    };
    let location = match me {
        Some(p) => match &p.location {
            Some(x) => x.clone(),
            None => String::from_str("-"),
        },
        None => String::from_str("-"),
    };
    let mut sector = String::new();
    match me {
        Some(p) => push_maybe(&mut sector, p.sector),
        None => sector.append("-"),
    }
    let ccc = ccc_label(me);
    let here = match me {
        Some(p) => coord_label(&p.hex),
        None => String::from_str("-"),
    };
    let target = match me {
        Some(p) => match p.target_hex {
            Some(h) => coord_label(&h),
            None => String::from_str("-"),
        },
        None => String::from_str("-"),
    };
    let mut points = String::new();
    match me {
        Some(p) => push_decimal(&mut points, p.move_points as u64),
        None => points.append("-"),
    }
    let stage = match me {
        Some(p) => String::from_str(stage_label(p.travel_stage.as_str())),
        None => String::from_str("-"),
    };
    let active = active_name(lobby);
    let mut mission = String::new();
    push_decimal(&mut mission, lobby.mission_id as u64);
    let mut v: Vec<String> = Vec::new();
    v.push(name);
    v.push(location);
    v.push(sector);
    v.push(ccc);
    v.push(here);
    v.push(target);
    v.push(points);
    v.push(stage);
    v.push(active);
    v.push(mission);
    assert(texts(v@) =~= field_texts(mp, *lobby));
    v
}

/// The lobby's summary line: phase, seats taken of the maximum, the minimum, and
/// whether the game can start.
pub open spec fn lobby_summary_text(l: LobbyView) -> Seq<char> {
    "Фаза: "@ + (if l.phase@ == "playing"@ { "игра"@ } else { "лобби"@ }) + " · игроков "@
        + decimal(l.player_count as nat) + "/"@ + decimal(l.max_players as nat) + " · минимум "@
        + decimal(l.min_players as nat) + " · can_start: "@ + (if l.can_start { "да"@ } else { "нет"@ })
}

pub fn lobby_summary(lobby: &LobbyView) -> (r: String)
    ensures
        r@ == lobby_summary_text(*lobby),
{
    let mut s = String::from_str("Фаза: ");
    s.append(phase_label(lobby.phase.as_str()));
    s.append(" · игроков ");
    push_decimal(&mut s, lobby.player_count as u64);
    s.append("/");
    push_decimal(&mut s, lobby.max_players as u64);
    s.append(" · минимум ");
    push_decimal(&mut s, lobby.min_players as u64);
    s.append(" · can_start: ");
    if lobby.can_start {
        s.append("да");
    } else {
        s.append("нет");
    }
    assert(s@ =~= lobby_summary_text(*lobby));
    s
}

/// The lobby's mission line: `Миссия <id>: <title>`, `без названия` for an empty title.
pub open spec fn lobby_mission_text(l: LobbyView) -> Seq<char> {
    "Миссия "@ + decimal(l.mission_id as nat) + ": "@
        + (if l.mission_title@.len() == 0 { "без названия"@ } else { l.mission_title@ })
}

pub fn lobby_mission(lobby: &LobbyView) -> (r: String)
    ensures
        r@ == lobby_mission_text(*lobby),
{
    let mut s = String::from_str("Миссия ");
    push_decimal(&mut s, lobby.mission_id as u64);
    s.append(": ");
    if lobby.mission_title.as_str().unicode_len() == 0 {
        s.append("без названия");
    } else {
        s.append(lobby.mission_title.as_str());
    }
    assert(s@ =~= lobby_mission_text(*lobby));
    s
}

/// A lobby seat: the name (with ` · ГМ` for the GM), and `готов` or `ждем`.
pub open spec fn seat_texts(p: LobbyPlayerView) -> (Seq<char>, Seq<char>) {
    (
        p.display_name@ + (if p.is_gm { " · ГМ"@ } else { Seq::empty() }),
        if p.ready { "готов"@ } else { "ждем"@ },
    )
}

pub fn seat_line(player: &LobbyPlayerView) -> (r: (String, &'static str))
    ensures
        r.0@ == seat_texts(*player).0,
        r.1@ == seat_texts(*player).1,
{
    let mut name = player.display_name.clone();
    if player.is_gm {
        name.append(" · ГМ");
    }
    assert(name@ =~= seat_texts(*player).0);
    (name, if player.ready { "готов" } else { "ждем" })
}

/// The server's health as the sign-in screen shows it.
pub open spec fn health_text(h: HealthState) -> Seq<char> {
    match h {
        HealthState::Checking => "Сервер: проверка..."@,
        HealthState::Online => "Сервер: онлайн"@,
        HealthState::Offline => "Сервер: недоступен"@,
    }
}

pub fn health_label(h: HealthState) -> (r: &'static str)
    ensures
        r@ == health_text(h),
{
    match h {
        HealthState::Checking => "Сервер: проверка...",
        HealthState::Online => "Сервер: онлайн",
        HealthState::Offline => "Сервер: недоступен",
    }
}

} // verus!
