//! The rules engine: `init`, `try_add_player`, `legal_actions` and `step`.
//! An action the rules refuse yields `Err` and the caller keeps its state.
use vstd::prelude::*;

use crate::actions::{Action, ActionModel};
use crate::room::lemma_index_from;
use crate::ccc::{CccDeck, ccc_deck_after, ccc_drawn_tens, ccc_drawn_units, is_shuffled_deck};
use crate::clock::{clock_after, clock_can_advance};
use crate::location::{ccc_sector, location_for_roll, location_name, valid_ccc_cards};
use crate::rng::{GameRng, seeded_roll};
use crate::sector::{hex_from_d20, in_sector, is_sector_hex, lemma_sector_hex_bounded, sector_hexes, sector_seq};
use crate::error::DomainError;
use crate::history::{
    arrived_debug_text, arrived_text, ccc_text, chat_text, d6_text, game_started_text,
    hex_roll_text, location_reroll_text, location_text, mission_started_text, moved_text,
    npc_spawned_text, player_joined_text, ready_text, room_created_text, text_arrived,
    text_arrived_debug, text_ccc, text_chat, text_d6, text_game_started, text_hex_roll,
    text_location, text_location_reroll, text_mission_started, text_moved, text_npc_spawned,
    text_player_joined, text_ready, text_room_created, texts,
};
use crate::ids::{MemberRole, RoomId, UserId};
use crate::lobby::RoomPhase;
use crate::mission::{MissionDef, mission_exists, mission_title};
use crate::room::{
    RoomState, all_tokens_ready, lemma_same_seats, lemma_token_index, room_can_start, same_seats,
    token_index,
};
use crate::hex::HexCoord;
use crate::location::LocationId;
use crate::npc::{npc_id_bits, Npc, NpcKind};
use crate::text::{take_chars, trim, trimmed, truncated};
use crate::token::{PlayerToken, TurnStage};

verus! {

/// The room after an accepted action, with the entries it added to the history.
#[derive(Debug, Clone, PartialEq, Eq)]
pub struct StepOutcome {
    pub state: RoomState,
    pub events: Vec<String>,
}

/// A new room: `RoomState::new` with `room_created` in its history.
pub fn init(room_id: RoomId, code: String, gm: PlayerToken, seed: u64) -> (s: RoomState)
    ensures
        s.room_id == room_id,
        s.code == code,
        s.gm_user_id == gm.user_id,
        s.phase == RoomPhase::Lobby,
        s.tokens@ == seq![gm],
        s.active_user_id == Some(gm.user_id),
        texts(s.history@) == seq![text_room_created()],
        s.rng_seed == seed,
        s.min_players == 4,
        s.max_players == 5,
        s.mission_id == 1,
{
    let mut state = RoomState::new(room_id, code, gm, seed);
    state.history.push(room_created_text());
    assert(texts(state.history@) =~= seq![text_room_created()]);
    state
}

/// Why joining is refused, if it is: a seated user always gets back in; otherwise the
/// room must be in the lobby and have a free seat.
pub open spec fn join_rejection(s: RoomState, user: UserId) -> Option<DomainError> {
    if token_index(s.tokens@, user) >= 0 {
        None
    } else if s.phase != RoomPhase::Lobby {
        Some(DomainError::AlreadyPlaying)
    } else if (s.tokens@.len() as u8) >= s.max_players {
        Some(DomainError::LobbyFull { max: s.max_players })
    } else {
        None
    }
}

/// The room after a join: unchanged for a seated user; otherwise the token takes the
/// next seat and the join is recorded.
pub open spec fn joined(s: RoomState, token: PlayerToken, n: RoomState) -> bool {
    if token_index(s.tokens@, token.user_id) >= 0 {
        n == s
    } else {
        &&& n == (RoomState { tokens: n.tokens, history: n.history, ..s })
        &&& n.tokens@ == s.tokens@.push(token)
        &&& texts(n.history@) == texts(s.history@).push(text_player_joined(token.display_name@))
    }
}

/// Seats a player in the lobby. Idempotent for a user already seated, which also
/// lets a seated player reconnect after the game started.
pub fn try_add_player(state: RoomState, token: PlayerToken) -> (r: Result<RoomState, DomainError>)
    ensures
        join_rejection(state, token.user_id) matches Some(e) ==> r == Err::<RoomState, DomainError>(e),
        join_rejection(state, token.user_id) is None ==> r is Ok,
        r matches Ok(n) ==> joined(state, token, n),
{
    if state.find_token(token.user_id).is_some() {
        return Ok(state);
    }
    if state.phase != RoomPhase::Lobby {
        return Err(DomainError::AlreadyPlaying);
    }
    if state.is_full() {
        return Err(DomainError::LobbyFull { max: state.max_players });
    }
    let mut next = state;
    let entry = player_joined_text(token.display_name.as_str());
    next.history.push(entry);
    next.tokens.push(token);
    assert(texts(next.history@) =~= texts(state.history@).push(
        text_player_joined(token.display_name@),
    ));
    Ok(next)
}

/// `try_add_player` for callers that know the room is joinable.
pub fn add_player(state: RoomState, token: PlayerToken) -> (n: RoomState)
    requires
        join_rejection(state, token.user_id) is None,
    ensures
        joined(state, token, n),
{
    match try_add_player(state, token) {
        Ok(n) => n,
        Err(_) => {
            assert(false);
            RoomState::new(RoomId(0), String::new(), PlayerToken::new(UserId(0), ""), 0)
        },
    }
}

/// The action name the rules expect at a travel stage.
pub open spec fn stage_name(stage: TurnStage) -> &'static str {
    match stage {
        TurnStage::Idle => "idle",
        TurnStage::NeedLocation => "roll_d20_location",
        TurnStage::NeedSector => "draw_ccc",
        TurnStage::NeedHex => "roll_d20_hex",
        TurnStage::NeedD6 => "roll_d6_move",
        TurnStage::NeedMove => "move_token",
    }
}

pub fn stage_action_name(stage: TurnStage) -> (s: &'static str)
    ensures
        s == stage_name(stage),
{
    match stage {
        TurnStage::Idle => "idle",
        TurnStage::NeedLocation => "roll_d20_location",
        TurnStage::NeedSector => "draw_ccc",
        TurnStage::NeedHex => "roll_d20_hex",
        TurnStage::NeedD6 => "roll_d6_move",
        TurnStage::NeedMove => "move_token",
    }
}

pub fn require_playing(state: &RoomState) -> (r: Result<(), DomainError>)
    ensures
        state.phase != RoomPhase::Playing ==> r == Err::<(), DomainError>(DomainError::StillInLobby),
        state.phase == RoomPhase::Playing ==> r is Ok,
{
    if state.phase != RoomPhase::Playing {
        Err(DomainError::StillInLobby)
    } else {
        Ok(())
    }
}

pub fn ensure_player(state: &RoomState, user_id: UserId) -> (r: Result<(), DomainError>)
    ensures
        token_index(state.tokens@, user_id) < 0 ==> r == Err::<(), DomainError>(DomainError::UnknownPlayer),
        token_index(state.tokens@, user_id) >= 0 ==> r is Ok,
{
    if state.find_token(user_id).is_none() {
        Err(DomainError::UnknownPlayer)
    } else {
        Ok(())
    }
}

pub fn ensure_active_player(state: &RoomState, user_id: UserId) -> (r: Result<(), DomainError>)
    ensures
        state.active_user_id == Some(user_id) ==> r is Ok,
        state.active_user_id != Some(user_id) ==> r == Err::<(), DomainError>(DomainError::NotActivePlayer),
{
    match state.active_user_id {
        Some(active) => {
            if active == user_id {
                Ok(())
            } else {
                Err(DomainError::NotActivePlayer)
            }
        },
        None => Err(DomainError::NotActivePlayer),
    }
}

/// The refusal of a stage check, if any: the user must be seated and at `expected`.
pub open spec fn stage_rejection(s: RoomState, user: UserId, expected: TurnStage, got: &'static str) -> Option<DomainError> {
    let i = token_index(s.tokens@, user);
    if i < 0 {
        Some(DomainError::UnknownPlayer)
    } else if s.tokens@[i].travel_stage != expected {
        Some(DomainError::IllegalStage { expected: stage_name(s.tokens@[i].travel_stage), got })
    } else {
        None
    }
}

pub fn ensure_stage(state: &RoomState, user_id: UserId, expected: TurnStage, got: &'static str) -> (r: Result<(), DomainError>)
    ensures
        stage_rejection(*state, user_id, expected, got) matches Some(e) ==> r == Err::<(), DomainError>(e),
        stage_rejection(*state, user_id, expected, got) is None ==> r is Ok,
{
    let token = match state.find_token(user_id) {
        Some(t) => t,
        None => {
            return Err(DomainError::UnknownPlayer);
        },
    };
    if token.travel_stage == expected {
        Ok(())
    } else {
        Err(DomainError::IllegalStage { expected: stage_action_name(token.travel_stage), got })
    }
}

/// The entries an action adds: appended to the history and returned as events.
pub open spec fn recorded(s: RoomState, n: RoomState, events: Seq<String>, entries: Seq<Seq<char>>) -> bool {
    &&& texts(n.history@) == texts(s.history@) + entries
    &&& texts(events) == entries
}

proof fn lemma_texts_push(h: Seq<String>, x: String)
    ensures
        texts(h.push(x)) == texts(h).push(x@),
{
    assert(texts(h.push(x)) =~= texts(h).push(x@));
}

/// Appends one entry to the history and to the events.
fn record(n: &mut RoomState, events: &mut Vec<String>, entry: String)
    ensures
        *final(n) == (RoomState { history: final(n).history, ..*old(n) }),
        texts(final(n).history@) == texts(old(n).history@).push(entry@),
        texts(final(events)@) == texts(old(events)@).push(entry@),
{
    let copy = entry.clone();
    n.history.push(entry);
    events.push(copy);
    proof {
        lemma_texts_push(old(n).history@, entry);
        lemma_texts_push(old(events)@, copy);
    }
}

// ---------------------------------------------------------------------------------
// Lobby actions

pub open spec fn set_ready_rejection(s: RoomState, user: UserId) -> Option<DomainError> {
    if s.phase != RoomPhase::Lobby {
        Some(DomainError::AlreadyPlaying)
    } else if token_index(s.tokens@, user) < 0 {
        Some(DomainError::UnknownPlayer)
    } else {
        None
    }
}

/// The user's ready flag takes the new value.
pub open spec fn set_ready_effect(s: RoomState, user: UserId, ready: bool, n: RoomState, ev: Seq<String>) -> bool {
    let i = token_index(s.tokens@, user);
    &&& n == RoomState { tokens: n.tokens, history: n.history, ..s }
    &&& n.tokens@ == s.tokens@.update(i, PlayerToken { ready, ..s.tokens@[i] })
    &&& recorded(s, n, ev, seq![text_ready(user, ready)])
}

fn apply_set_ready(state: RoomState, user_id: UserId, ready: bool) -> (r: Result<(RoomState, Vec<String>), DomainError>)
    ensures
        set_ready_rejection(state, user_id) matches Some(e) ==> r == Err::<(RoomState, Vec<String>), DomainError>(e),
        set_ready_rejection(state, user_id) is None ==> (r matches Ok((n, ev)) && set_ready_effect(state, user_id, ready, n, ev@)),
{
    if state.phase != RoomPhase::Lobby {
        return Err(DomainError::AlreadyPlaying);
    }
    ensure_player(&state, user_id)?;
    let mut next = state;
    let mut events: Vec<String> = Vec::new();
    proof {
        lemma_token_index(state.tokens@, user_id);
    }
    let token = next.find_token_mut(user_id).unwrap();
    token.ready = ready;
    let entry = ready_text(user_id, ready);
    record(&mut next, &mut events, entry);
    assert(texts(events@) =~= seq![text_ready(user_id, ready)]);
    assert(texts(next.history@) =~= texts(state.history@) + seq![text_ready(user_id, ready)]);
    Ok((next, events))
}

pub open spec fn start_game_rejection(s: RoomState, role: MemberRole) -> Option<DomainError> {
    let have = s.tokens@.len() as u8;
    if role != MemberRole::Gm {
        Some(DomainError::Forbidden("only GM can start the game"))
    } else if s.phase != RoomPhase::Lobby {
        Some(DomainError::AlreadyPlaying)
    } else if have < s.min_players || have > s.max_players {
        Some(DomainError::LobbySize { min: s.min_players, max: s.max_players, have })
    } else if !all_tokens_ready(s.tokens@) {
        Some(DomainError::LobbyNotReady)
    } else {
        None
    }
}

/// A token entering the mission-targeting turn: back at the centre, nothing rolled,
/// waiting for a location roll.
pub open spec fn ready_for_targeting(t: PlayerToken) -> PlayerToken {
    PlayerToken {
        location: None,
        sector: None,
        ccc_tens: None,
        ccc_units: None,
        hex: HexCoord { q: 0, r: 0 },
        target_hex: None,
        move_points: 0,
        travel_stage: TurnStage::NeedLocation,
        ..t
    }
}

/// The room starts playing: the first seat is active, the clock is at day one
/// midnight, the CCC deck is shuffled from the room's seed, NPCs are cleared and every
/// token begins targeting.
pub open spec fn start_game_effect(s: RoomState, n: RoomState, ev: Seq<String>) -> bool {
    &&& n == RoomState {
        phase: RoomPhase::Playing,
        active_user_id: Some(s.tokens@[0].user_id),
        game_day: 1,
        game_hour: 0,
        play_started_unix: None,
        ccc_deck: n.ccc_deck,
        npcs: n.npcs,
        tokens: n.tokens,
        history: n.history,
        ..s
    }
    &&& is_shuffled_deck(n.ccc_deck, s.rng_seed)
    &&& n.npcs@.len() == 0
    &&& n.tokens@ == s.tokens@.map_values(|t: PlayerToken| ready_for_targeting(t))
    &&& recorded(s, n, ev, seq![text_game_started(s.tokens@.len() as u8)])
}

fn reset_for_targeting(t: &mut PlayerToken)
    ensures
        *final(t) == ready_for_targeting(*old(t)),
{
    t.location = None;
    t.sector = None;
    t.ccc_tens = None;
    t.ccc_units = None;
    t.hex = HexCoord::zero();
    t.target_hex = None;
    t.move_points = 0;
    t.travel_stage = TurnStage::NeedLocation;
}

fn apply_start_game(state: RoomState, role: MemberRole) -> (r: Result<(RoomState, Vec<String>), DomainError>)
    ensures
        start_game_rejection(state, role) matches Some(e) ==> r == Err::<(RoomState, Vec<String>), DomainError>(e),
        start_game_rejection(state, role) is None ==> (r matches Ok((n, ev)) && start_game_effect(state, n, ev@)),
{
    if role != MemberRole::Gm {
        return Err(DomainError::Forbidden("only GM can start the game"));
    }
    if state.phase != RoomPhase::Lobby {
        return Err(DomainError::AlreadyPlaying);
    }
    let have = state.player_count();
    if have < state.min_players || have > state.max_players {
        return Err(DomainError::LobbySize { min: state.min_players, max: state.max_players, have });
    }
    if !state.all_ready() {
        return Err(DomainError::LobbyNotReady);
    }
    let mut next = state;
    let mut events: Vec<String> = Vec::new();
    next.phase = RoomPhase::Playing;
    next.active_user_id = Some(next.tokens[0].user_id);
    next.game_day = 1;
    next.game_hour = 0;
    next.play_started_unix = None;
    next.ccc_deck = CccDeck::shuffled(next.rng_seed);
    next.npcs = Vec::new();
    let n = next.tokens.len();
    let mut i: usize = 0;
    let ghost before = next;
    while i < n
        invariant
            n == next.tokens@.len(),
            n == state.tokens@.len(),
            i <= n,
            forall|j: int| 0 <= j < i ==> next.tokens@[j] == ready_for_targeting(state.tokens@[j]),
            forall|j: int| i <= j < n ==> next.tokens@[j] == state.tokens@[j],
            next == (RoomState { tokens: next.tokens, ..before }),
        decreases n - i,
    {
        reset_for_targeting(&mut next.tokens[i]);
        i = i + 1;
    }
    assert(next.tokens@ =~= state.tokens@.map_values(|t: PlayerToken| ready_for_targeting(t)));
    let entry = game_started_text(have);
    record(&mut next, &mut events, entry);
    assert(texts(events@) =~= seq![text_game_started(have)]);
    assert(texts(next.history@) =~= texts(state.history@) + seq![text_game_started(have)]);
    Ok((next, events))
}

pub open spec fn start_mission_rejection(s: RoomState, role: MemberRole, mission_id: u8) -> Option<DomainError> {
    if s.phase != RoomPhase::Playing {
        Some(DomainError::StillInLobby)
    } else if role != MemberRole::Gm {
        Some(DomainError::Forbidden("only GM can start missions"))
    } else if !mission_exists(mission_id) {
        Some(DomainError::InvalidMissionId(mission_id))
    } else {
        None
    }
}

/// The room switches to the mission.
pub open spec fn start_mission_effect(s: RoomState, mission_id: u8, n: RoomState, ev: Seq<String>) -> bool {
    &&& n == (RoomState { mission_id, history: n.history, ..s })
    &&& recorded(s, n, ev, seq![text_mission_started(mission_id, mission_title(mission_id))])
}

fn apply_start_mission(state: RoomState, role: MemberRole, mission_id: u8) -> (r: Result<(RoomState, Vec<String>), DomainError>)
    ensures
        start_mission_rejection(state, role, mission_id) matches Some(e) ==> r == Err::<(RoomState, Vec<String>), DomainError>(e),
        start_mission_rejection(state, role, mission_id) is None ==> (r matches Ok((n, ev)) && start_mission_effect(state, mission_id, n, ev@)),
{
    require_playing(&state)?;
    if role != MemberRole::Gm {
        return Err(DomainError::Forbidden("only GM can start missions"));
    }
    let mission = match MissionDef::get(mission_id) {
        Some(m) => m,
        None => {
            return Err(DomainError::InvalidMissionId(mission_id));
        },
    };
    let mut next = state;
    let mut events: Vec<String> = Vec::new();
    next.mission_id = mission_id;
    let entry = mission_started_text(mission_id, mission.title);
    record(&mut next, &mut events, entry);
    assert(texts(events@) =~= seq![text_mission_started(mission_id, mission_title(mission_id))]);
    assert(texts(next.history@) =~= texts(state.history@) + seq![text_mission_started(mission_id, mission_title(mission_id))]);
    Ok((next, events))
}

pub open spec fn chat_rejection(s: RoomState, user: UserId) -> Option<DomainError> {
    if token_index(s.tokens@, user) < 0 {
        Some(DomainError::UnknownPlayer)
    } else {
        None
    }
}

/// The first 280 characters of the message go into the history.
pub open spec fn chat_effect(s: RoomState, user: UserId, text: Seq<char>, n: RoomState, ev: Seq<String>) -> bool {
    &&& n == (RoomState { history: n.history, ..s })
    &&& recorded(s, n, ev, seq![text_chat(user, take_chars(text, 280))])
}

fn apply_chat(state: RoomState, user_id: UserId, text: String) -> (r: Result<(RoomState, Vec<String>), DomainError>)
    ensures
        chat_rejection(state, user_id) matches Some(e) ==> r == Err::<(RoomState, Vec<String>), DomainError>(e),
        chat_rejection(state, user_id) is None ==> (r matches Ok((n, ev)) && chat_effect(state, user_id, text@, n, ev@)),
{
    ensure_player(&state, user_id)?;
    let short = truncated(text.as_str(), 280);
    let mut next = state;
    let mut events: Vec<String> = Vec::new();
    let entry = chat_text(user_id, short.as_str());
    record(&mut next, &mut events, entry);
    assert(texts(events@) =~= seq![text_chat(user_id, take_chars(text@, 280))]);
    assert(texts(next.history@) =~= texts(state.history@) + seq![text_chat(user_id, take_chars(text@, 280))]);
    Ok((next, events))
}

/// The trimmed text cut to `max` characters, or the fallback when nothing is left.
pub open spec fn trimmed_or(value: Seq<char>, fallback: Seq<char>, max: nat) -> Seq<char> {
    if trim(value).len() == 0 { fallback } else { take_chars(trim(value), max) }
}

pub fn non_empty_trimmed(value: &str, fallback: &str, max_chars: usize) -> (s: String)
    ensures
        s@ == trimmed_or(value@, fallback@, max_chars as nat),
{
    let t = trimmed(value);
    if t.unicode_len() == 0 {
        String::from_str(fallback)
    } else {
        truncated(t.as_str(), max_chars)
    }
}

/// The token a new NPC copies its location and sector from: the active player's,
/// else the first seat's.
pub open spec fn npc_anchor(s: RoomState) -> Option<PlayerToken> {
    match s.active_user_id {
        Some(a) if token_index(s.tokens@, a) >= 0 => Some(s.tokens@[token_index(s.tokens@, a)]),
        _ => if s.tokens@.len() > 0 { Some(s.tokens@[0]) } else { None },
    }
}

pub open spec fn spawn_npc_rejection(s: RoomState, role: MemberRole) -> Option<DomainError> {
    if s.phase != RoomPhase::Playing {
        Some(DomainError::StillInLobby)
    } else if role != MemberRole::Gm {
        Some(DomainError::Forbidden("only GM can spawn NPCs"))
    } else {
        None
    }
}

/// One NPC joins at the centre hex under the GM's control, named after the trimmed
/// request (at most 80 characters, `NPC` when blank), at the anchor token's location
/// and sector; its id is drawn from the room's dice seed and its NPC count.
pub open spec fn spawn_npc_effect(s: RoomState, name: Seq<char>, kind: NpcKind, n: RoomState, ev: Seq<String>) -> bool {
    let npc = n.npcs@.last();
    let npc_name = trimmed_or(name, "NPC"@, 80);
    &&& n == (RoomState { npcs: n.npcs, history: n.history, ..s })
    &&& n.npcs@.len() == s.npcs@.len() + 1
    &&& n.npcs@.drop_last() == s.npcs@
    &&& npc.id == npc_id_bits(s.rng_seed, s.npcs@.len() as u64)
    &&& npc.name@ == npc_name
    &&& npc.kind == kind
    &&& npc.controlled_by == Some(s.gm_user_id)
    &&& npc.hex == (HexCoord { q: 0, r: 0 })
    &&& npc.location == (match npc_anchor(s) { Some(t) => t.location, None => None })
    &&& npc.sector == (match npc_anchor(s) { Some(t) => t.sector, None => None })
    &&& recorded(s, n, ev, seq![text_npc_spawned(npc_name, kind)])
}

fn apply_spawn_npc(state: RoomState, role: MemberRole, name: String, kind: NpcKind) -> (r: Result<(RoomState, Vec<String>), DomainError>)
    ensures
        spawn_npc_rejection(state, role) matches Some(e) ==> r == Err::<(RoomState, Vec<String>), DomainError>(e),
        spawn_npc_rejection(state, role) is None ==> (r matches Ok((n, ev)) && spawn_npc_effect(state, name@, kind, n, ev@)),
{
    require_playing(&state)?;
    if role != MemberRole::Gm {
        return Err(DomainError::Forbidden("only GM can spawn NPCs"));
    }
    let npc_name = non_empty_trimmed(name.as_str(), "NPC", 80);
    let mut npc = Npc::seeded(npc_name.as_str(), kind, state.gm_user_id, HexCoord::zero(), state.rng_seed, state.npcs.len() as u64);
    let anchor: Option<&PlayerToken> = match state.active_user_id {
        Some(active) => match state.find_token(active) {
            Some(t) => Some(t),
            None => if state.tokens.len() > 0 { Some(&state.tokens[0]) } else { None },
        },
        None => if state.tokens.len() > 0 { Some(&state.tokens[0]) } else { None },
    };
    match anchor {
        Some(t) => {
            npc.location = t.location;
            npc.sector = t.sector;
        },
        None => {},
    }
    let entry = npc_spawned_text(npc.name.as_str(), npc.kind);
    let mut next = state;
    let mut events: Vec<String> = Vec::new();
    next.npcs.push(npc);
    assert(next.npcs@.drop_last() =~= state.npcs@);
    record(&mut next, &mut events, entry);
    assert(texts(events@) =~= seq![text_npc_spawned(trimmed_or(name@, "NPC"@, 80), kind)]);
    assert(texts(next.history@) =~= texts(state.history@) + seq![text_npc_spawned(trimmed_or(name@, "NPC"@, 80), kind)]);
    Ok((next, events))
}

// ---------------------------------------------------------------------------------
// Movement on the sector

/// A move of at least one and at most `points` hexes onto a sector hex.
pub open spec fn can_move_spec(from: HexCoord, to: HexCoord, points: u8) -> bool {
    let d = from.spec_distance(to);
    d > 0 && d <= points && in_sector(to)
}

/// A legal move that reaches the target or strictly approaches it.
pub open spec fn toward_target_spec(from: HexCoord, to: HexCoord, points: u8, target: HexCoord) -> bool {
    can_move_spec(from, to, points) && (to == target || to.spec_distance(target) < from.spec_distance(target))
}

pub fn can_move(from: HexCoord, to: HexCoord, move_points: u8) -> (b: bool)
    requires
        from.distance_fits(to),
    ensures
        b == can_move_spec(from, to, move_points),
{
    let d = from.distance(to);
    d > 0 && d <= move_points as u32 && is_sector_hex(to)
}

pub fn can_move_toward_target(from: HexCoord, to: HexCoord, move_points: u8, target: HexCoord) -> (b: bool)
    requires
        from.distance_fits(to),
        can_move_spec(from, to, move_points) ==> to.distance_fits(target) && from.distance_fits(target),
    ensures
        b == toward_target_spec(from, to, move_points, target),
{
    if !can_move(from, to, move_points) {
        return false;
    }
    if to == target {
        return true;
    }
    to.distance(target) < from.distance(target)
}

/// Whether some sector hex is a legal move towards the target.
pub open spec fn has_move_toward(from: HexCoord, points: u8, target: HexCoord) -> bool {
    exists|k: int| 0 <= k < 19 && toward_target_spec(from, sector_seq()[k], points, target)
}

fn any_move_toward(from: HexCoord, points: u8, target: HexCoord) -> (b: bool)
    requires
        moves_fit(from, points, target),
    ensures
        b == has_move_toward(from, points, target),
{
    let hexes = sector_hexes();
    let mut i: usize = 0;
    while i < 19
        invariant
            i <= 19,
            hexes@ == sector_seq(),
            moves_fit(from, points, target),
            forall|k: int| 0 <= k < i ==> !toward_target_spec(from, sector_seq()[k], points, target),
        decreases 19 - i,
    {
        proof {
            assert(from.distance_fits(sector_seq()[i as int]));
        }
        if can_move_toward_target(from, hexes[i], points, target) {
            return true;
        }
        i = i + 1;
    }
    false
}

// ---------------------------------------------------------------------------------
// Turn order

/// A token done travelling: no target, no points, waiting for the next location roll.
pub open spec fn travel_done(t: PlayerToken) -> PlayerToken {
    PlayerToken { target_hex: None, move_points: 0, travel_stage: TurnStage::NeedLocation, ..t }
}

/// The seat after the user's, wrapping around; none when the user holds no seat.
pub open spec fn next_active(tokens: Seq<PlayerToken>, user: UserId) -> Option<UserId> {
    let i = token_index(tokens, user);
    if i < 0 { None } else { Some(tokens[(i + 1) % (tokens.len() as int)].user_id) }
}

/// Ending a travel: the traveller's token is done, two game hours pass and the turn
/// passes to the next seat.
pub open spec fn travel_finished(s: RoomState, user: UserId, n: RoomState) -> bool {
    let i = token_index(s.tokens@, user);
    &&& n == (RoomState {
        tokens: n.tokens,
        game_day: clock_after(s.game_day, s.game_hour, 2).0,
        game_hour: clock_after(s.game_day, s.game_hour, 2).1,
        active_user_id: next_active(s.tokens@, user),
        ..s
    })
    &&& n.tokens@ == (if i >= 0 { s.tokens@.update(i, travel_done(s.tokens@[i])) } else { s.tokens@ })
}

pub fn advance_turn(state: &mut RoomState, user_id: UserId)
    ensures
        *final(state) == (RoomState { active_user_id: next_active(old(state).tokens@, user_id), ..*old(state) }),
{
    proof {
        lemma_token_index(state.tokens@, user_id);
    }
    let idx = match state.token_position(user_id) {
        Some(i) => i,
        None => {
            state.active_user_id = None;
            return;
        },
    };
    let len = state.tokens.len();
    assert(idx < len);
    let next_idx = (idx + 1) % len;
    state.active_user_id = Some(state.tokens[next_idx].user_id);
}

pub fn finish_travel_and_turn(state: &mut RoomState, user_id: UserId)
    requires
        clock_can_advance(old(state).game_day, old(state).game_hour, 2),
    ensures
        travel_finished(*old(state), user_id, *final(state)),
{
    proof {
        lemma_token_index(state.tokens@, user_id);
    }
    match state.find_token_mut(user_id) {
        Some(token) => {
            token.target_hex = None;
            token.move_points = 0;
            token.travel_stage = TurnStage::NeedLocation;
        },
        None => {},
    }
    proof {
        assert(same_seats(old(state).tokens@, state.tokens@));
        lemma_same_seats(old(state).tokens@, state.tokens@, user_id);
    }
    state.advance_clock_after_travel_resolution();
    advance_turn(state, user_id);
}

// ---------------------------------------------------------------------------------
// Dice for the targeting turn

/// How many D20 rolls a targeting roll may take before it gives up.
pub const ROLL_LIMIT: u64 = 0xFFFF_FFFF;

/// The D20 rolls of a location roll from the given point of the stream: rerolls
/// (19 and 20), the value that named a location, and whether one did within `fuel`
/// rolls (otherwise the last value rolled).
pub open spec fn location_rolls(seed: u64, earlier: Seq<(u8, u8)>, fuel: nat) -> (Seq<u8>, u8, bool)
    decreases fuel,
{
    let v = seeded_roll(seed, earlier, 1, 20);
    if 1 <= v <= 18 {
        (Seq::empty(), v, true)
    } else if fuel <= 1 {
        (Seq::empty(), v, false)
    } else {
        let (r, x, found) = location_rolls(seed, earlier.push((1u8, 20u8)), (fuel - 1) as nat);
        (seq![v] + r, x, found)
    }
}

/// The D20 rolls of a sector-hex roll: the value that named a hex (20 is rolled
/// again), and whether one did within `fuel` rolls.
pub open spec fn hex_rolls(seed: u64, earlier: Seq<(u8, u8)>, fuel: nat) -> (u8, bool)
    decreases fuel,
{
    let v = seeded_roll(seed, earlier, 1, 20);
    if 1 <= v <= 19 {
        (v, true)
    } else if fuel <= 1 {
        (v, false)
    } else {
        hex_rolls(seed, earlier.push((1u8, 20u8)), (fuel - 1) as nat)
    }
}

/// A hex roll that succeeded named one of the nineteen sector hexes.
pub proof fn lemma_hex_rolls_found(seed: u64, earlier: Seq<(u8, u8)>, fuel: nat)
    ensures
        hex_rolls(seed, earlier, fuel).1 ==> 1 <= hex_rolls(seed, earlier, fuel).0 <= 19,
    decreases fuel,
{
    let v = seeded_roll(seed, earlier, 1, 20);
    if !(1 <= v <= 19) && fuel > 1 {
        lemma_hex_rolls_found(seed, earlier.push((1u8, 20u8)), (fuel - 1) as nat);
    }
}

fn roll_location(rng: &mut GameRng) -> (r: Result<(Vec<u8>, u8, LocationId), DomainError>)
    ensures
        ({
            let (rerolls, v, found) = location_rolls(old(rng)@.0, old(rng)@.1, ROLL_LIMIT as nat);
            &&& found ==> (r matches Ok((rs, value, loc)) && rs@ == rerolls && value == v
                && location_for_roll(v) == Some(loc))
            &&& !found ==> r == Err::<(Vec<u8>, u8, LocationId), DomainError>(DomainError::InvalidDice(v))
        }),
{
    let ghost seed = old(rng)@.0;
    let ghost start = old(rng)@.1;
    let mut rerolls: Vec<u8> = Vec::new();
    let mut tries: u64 = 0;
    loop
        invariant
            tries < ROLL_LIMIT,
            seed == old(rng)@.0,
            start == old(rng)@.1,
            rng@.0 == seed,
            ({
                let (r0, x0, f0) = location_rolls(seed, start, ROLL_LIMIT as nat);
                let (r1, x1, f1) = location_rolls(seed, rng@.1, (ROLL_LIMIT - tries) as nat);
                r0 == rerolls@ + r1 && x0 == x1 && f0 == f1
            }),
        decreases ROLL_LIMIT - tries,
    {
        let ghost before = rng@.1;
        let v = rng.d20();
        match LocationId::from_d20(v) {
            Ok(Some(loc)) => {
                assert(location_rolls(seed, before, (ROLL_LIMIT - tries) as nat) == (Seq::<u8>::empty(), v, true));
                assert(rerolls@ + Seq::<u8>::empty() =~= rerolls@);
                return Ok((rerolls, v, loc));
            },
            _ => {},
        }
        if ROLL_LIMIT - tries <= 1 {
            assert(location_rolls(seed, before, (ROLL_LIMIT - tries) as nat) == (Seq::<u8>::empty(), v, false));
            assert(rerolls@ + Seq::<u8>::empty() =~= rerolls@);
            return Err(DomainError::InvalidDice(v));
        }
        proof {
            let (r1, x1, f1) = location_rolls(seed, before, (ROLL_LIMIT - tries) as nat);
            let (r2, x2, f2) = location_rolls(seed, rng@.1, (ROLL_LIMIT - tries - 1) as nat);
            assert(r1 == seq![v] + r2);
            assert(rerolls@ + r1 =~= rerolls@.push(v) + r2);
        }
        rerolls.push(v);
        tries = tries + 1;
    }
}

fn roll_sector_hex(rng: &mut GameRng) -> (r: Result<(u8, HexCoord), DomainError>)
    ensures
        ({
            let (v, found) = hex_rolls(old(rng)@.0, old(rng)@.1, ROLL_LIMIT as nat);
            &&& found ==> r == Ok::<(u8, HexCoord), DomainError>((v, sector_seq()[v - 1]))
            &&& !found ==> r == Err::<(u8, HexCoord), DomainError>(DomainError::InvalidDice(v))
        }),
{
    let ghost seed = old(rng)@.0;
    let ghost start = old(rng)@.1;
    let mut tries: u64 = 0;
    loop
        invariant
            tries < ROLL_LIMIT,
            seed == old(rng)@.0,
            start == old(rng)@.1,
            rng@.0 == seed,
            hex_rolls(seed, start, ROLL_LIMIT as nat) == hex_rolls(seed, rng@.1, (ROLL_LIMIT - tries) as nat),
        decreases ROLL_LIMIT - tries,
    {
        let ghost before = rng@.1;
        let v = rng.d20();
        match hex_from_d20(v) {
            Ok(Some(hex)) => {
                assert(hex_rolls(seed, before, (ROLL_LIMIT - tries) as nat) == (v, true));
                return Ok((v, hex));
            },
            _ => {},
        }
        if ROLL_LIMIT - tries <= 1 {
            assert(hex_rolls(seed, before, (ROLL_LIMIT - tries) as nat) == (v, false));
            return Err(DomainError::InvalidDice(v));
        }
        tries = tries + 1;
    }
}

// ---------------------------------------------------------------------------------
// The mission-targeting turn

/// The refusal shared by the targeting steps: the room must be playing, the user
/// seated, active, and at the stage the step belongs to.
pub open spec fn turn_rejection(s: RoomState, user: UserId, stage: TurnStage, got: &'static str) -> Option<DomainError> {
    if s.phase != RoomPhase::Playing {
        Some(DomainError::StillInLobby)
    } else if token_index(s.tokens@, user) < 0 {
        Some(DomainError::UnknownPlayer)
    } else if s.active_user_id != Some(user) {
        Some(DomainError::NotActivePlayer)
    } else {
        stage_rejection(s, user, stage, got)
    }
}

fn check_turn(state: &RoomState, user_id: UserId, stage: TurnStage, got: &'static str) -> (r: Result<(), DomainError>)
    ensures
        turn_rejection(*state, user_id, stage, got) matches Some(e) ==> r == Err::<(), DomainError>(e),
        turn_rejection(*state, user_id, stage, got) is None ==> r is Ok,
{
    require_playing(state)?;
    ensure_player(state, user_id)?;
    ensure_active_player(state, user_id)?;
    ensure_stage(state, user_id, stage, got)
}

/// The seat of the user (only meaningful when seated).
pub open spec fn seat(s: RoomState, user: UserId) -> PlayerToken {
    s.tokens@[token_index(s.tokens@, user)]
}

pub open spec fn location_rejection(s: RoomState, user: UserId, dice: (u64, Seq<(u8, u8)>)) -> Option<DomainError> {
    let (_r, v, found) = location_rolls(dice.0, dice.1, ROLL_LIMIT as nat);
    if turn_rejection(s, user, TurnStage::NeedLocation, "roll_d20_location") is Some {
        turn_rejection(s, user, TurnStage::NeedLocation, "roll_d20_location")
    } else if !found {
        Some(DomainError::InvalidDice(v))
    } else {
        None
    }
}

/// The token takes the rolled location and waits for a CCC draw; each reroll and the
/// roll that named the location are recorded.
pub open spec fn location_effect(s: RoomState, user: UserId, dice: (u64, Seq<(u8, u8)>), n: RoomState, ev: Seq<String>) -> bool {
    let (rerolls, v, _f) = location_rolls(dice.0, dice.1, ROLL_LIMIT as nat);
    let loc = location_for_roll(v)->0;
    let i = token_index(s.tokens@, user);
    &&& n == (RoomState { tokens: n.tokens, history: n.history, ..s })
    &&& n.tokens@ == s.tokens@.update(i, PlayerToken {
        location: Some(loc),
        sector: None,
        move_points: 0,
        travel_stage: TurnStage::NeedSector,
        ..s.tokens@[i]
    })
    &&& recorded(s, n, ev, rerolls.map_values(|x: u8| text_location_reroll(x)) + seq![text_location(v, location_name(loc), user)])
}

fn apply_roll_location(state: RoomState, user_id: UserId, rng: &mut GameRng) -> (r: Result<(RoomState, Vec<String>), DomainError>)
    ensures
        location_rejection(state, user_id, old(rng)@) matches Some(e) ==> r == Err::<(RoomState, Vec<String>), DomainError>(e),
        location_rejection(state, user_id, old(rng)@) is None ==> (r matches Ok((n, ev)) && location_effect(state, user_id, old(rng)@, n, ev@)),
{
    check_turn(&state, user_id, TurnStage::NeedLocation, "roll_d20_location")?;
    let (rerolls, value, location) = roll_location(rng)?;
    let ghost (rr, _v, _f) = location_rolls(old(rng)@.0, old(rng)@.1, ROLL_LIMIT as nat);
    let mut next = state;
    let mut events: Vec<String> = Vec::new();
    let mut k: usize = 0;
    while k < rerolls.len()
        invariant
            k <= rerolls@.len(),
            rerolls@ == rr,
            next == (RoomState { history: next.history, ..state }),
            texts(next.history@) == texts(state.history@) + rr.take(k as int).map_values(|x: u8| text_location_reroll(x)),
            texts(events@) == rr.take(k as int).map_values(|x: u8| text_location_reroll(x)),
        decreases rerolls@.len() - k,
    {
        let entry = location_reroll_text(rerolls[k]);
        record(&mut next, &mut events, entry);
        assert(rr.take(k as int + 1) =~= rr.take(k as int).push(rr[k as int]));
        assert(rr.take(k as int + 1).map_values(|x: u8| text_location_reroll(x)) =~= rr.take(k as int).map_values(|x: u8| text_location_reroll(x)).push(text_location_reroll(rr[k as int])));
        k = k + 1;
    }
    assert(rr.take(rerolls@.len() as int) =~= rr);
    proof {
        lemma_token_index(state.tokens@, user_id);
    }
    let token = next.find_token_mut(user_id).unwrap();
    token.location = Some(location);
    token.sector = None;
    token.move_points = 0;
    token.travel_stage = TurnStage::NeedSector;
    let entry = location_text(value, location.name_ru(), user_id);
    record(&mut next, &mut events, entry);
    assert(texts(events@) =~= rr.map_values(|x: u8| text_location_reroll(x)) + seq![text_location(value, location_name(location), user_id)]);
    assert(texts(next.history@) =~= texts(state.history@) + (rr.map_values(|x: u8| text_location_reroll(x)) + seq![text_location(value, location_name(location), user_id)]));
    Ok((next, events))
}

pub open spec fn draw_ccc_rejection(s: RoomState, user: UserId) -> Option<DomainError> {
    if turn_rejection(s, user, TurnStage::NeedSector, "draw_ccc") is Some {
        turn_rejection(s, user, TurnStage::NeedSector, "draw_ccc")
    } else if !valid_ccc_cards(ccc_drawn_tens(s.ccc_deck), ccc_drawn_units(s.ccc_deck)) {
        Some(DomainError::InvalidCcc)
    } else {
        None
    }
}

/// A CCC draw names the token's sector; the token waits for a hex roll.
pub open spec fn draw_ccc_effect(s: RoomState, user: UserId, n: RoomState, ev: Seq<String>) -> bool {
    let t = ccc_drawn_tens(s.ccc_deck);
    let u = ccc_drawn_units(s.ccc_deck);
    let sector = ccc_sector(t, u);
    let i = token_index(s.tokens@, user);
    &&& n == (RoomState { ccc_deck: n.ccc_deck, tokens: n.tokens, history: n.history, ..s })
    &&& ccc_deck_after(s.ccc_deck, n.ccc_deck)
    &&& n.tokens@ == s.tokens@.update(i, PlayerToken {
        sector: Some(sector),
        ccc_tens: Some(t),
        ccc_units: Some(u),
        travel_stage: TurnStage::NeedHex,
        ..s.tokens@[i]
    })
    &&& recorded(s, n, ev, seq![text_ccc(t, u, sector, user)])
}

fn apply_draw_ccc(state: RoomState, user_id: UserId) -> (r: Result<(RoomState, Vec<String>), DomainError>)
    ensures
        draw_ccc_rejection(state, user_id) matches Some(e) ==> r == Err::<(RoomState, Vec<String>), DomainError>(e),
        draw_ccc_rejection(state, user_id) is None ==> (r matches Ok((n, ev)) && draw_ccc_effect(state, user_id, n, ev@)),
{
    check_turn(&state, user_id, TurnStage::NeedSector, "draw_ccc")?;
    let mut next = state;
    let draw = next.ccc_deck.draw_ccc()?;
    let mut events: Vec<String> = Vec::new();
    proof {
        lemma_token_index(state.tokens@, user_id);
    }
    let token = next.find_token_mut(user_id).unwrap();
    token.sector = Some(draw.sector);
    token.ccc_tens = Some(draw.tens);
    token.ccc_units = Some(draw.units);
    token.travel_stage = TurnStage::NeedHex;
    let entry = ccc_text(draw.tens, draw.units, draw.sector, user_id);
    record(&mut next, &mut events, entry);
    assert(texts(events@) =~= seq![text_ccc(draw.tens, draw.units, draw.sector, user_id)]);
    assert(texts(next.history@) =~= texts(state.history@) + seq![text_ccc(draw.tens, draw.units, draw.sector, user_id)]);
    Ok((next, events))
}

pub open spec fn hex_roll_rejection(s: RoomState, user: UserId, dice: (u64, Seq<(u8, u8)>)) -> Option<DomainError> {
    let (v, found) = hex_rolls(dice.0, dice.1, ROLL_LIMIT as nat);
    if turn_rejection(s, user, TurnStage::NeedHex, "roll_d20_hex") is Some {
        turn_rejection(s, user, TurnStage::NeedHex, "roll_d20_hex")
    } else if !found {
        Some(DomainError::InvalidDice(v))
    } else {
        None
    }
}

/// The rolled sector hex becomes the token's target (the token stays where it is) and
/// the token waits for a D6.
pub open spec fn hex_roll_effect(s: RoomState, user: UserId, dice: (u64, Seq<(u8, u8)>), n: RoomState, ev: Seq<String>) -> bool {
    let (v, _f) = hex_rolls(dice.0, dice.1, ROLL_LIMIT as nat);
    let hex = sector_seq()[v - 1];
    let i = token_index(s.tokens@, user);
    &&& n == (RoomState { tokens: n.tokens, history: n.history, ..s })
    &&& n.tokens@ == s.tokens@.update(i, PlayerToken {
        target_hex: Some(hex),
        move_points: 0,
        travel_stage: TurnStage::NeedD6,
        ..s.tokens@[i]
    })
    &&& recorded(s, n, ev, seq![text_hex_roll(v, user, hex)])
}

fn apply_roll_hex(state: RoomState, user_id: UserId, rng: &mut GameRng) -> (r: Result<(RoomState, Vec<String>), DomainError>)
    ensures
        hex_roll_rejection(state, user_id, old(rng)@) matches Some(e) ==> r == Err::<(RoomState, Vec<String>), DomainError>(e),
        hex_roll_rejection(state, user_id, old(rng)@) is None ==> (r matches Ok((n, ev)) && hex_roll_effect(state, user_id, old(rng)@, n, ev@)),
{
    check_turn(&state, user_id, TurnStage::NeedHex, "roll_d20_hex")?;
    let (value, hex) = roll_sector_hex(rng)?;
    let mut next = state;
    let mut events: Vec<String> = Vec::new();
    proof {
        lemma_token_index(state.tokens@, user_id);
    }
    let token = next.find_token_mut(user_id).unwrap();
    token.target_hex = Some(hex);
    token.move_points = 0;
    token.travel_stage = TurnStage::NeedD6;
    let entry = hex_roll_text(value, user_id, hex);
    record(&mut next, &mut events, entry);
    assert(texts(events@) =~= seq![text_hex_roll(value, user_id, hex)]);
    assert(texts(next.history@) =~= texts(state.history@) + seq![text_hex_roll(value, user_id, hex)]);
    Ok((next, events))
}

/// The `i32` distances that looking for moves of up to `points` computes stay in
/// range: from the seat to each sector hex and, for a hex within reach, from the seat
/// and from that hex to the target.
pub open spec fn moves_fit(from: HexCoord, points: u8, target: HexCoord) -> bool {
    forall|k: int|
        0 <= k < 19 ==> {
            &&& from.distance_fits(#[trigger] sector_seq()[k])
            &&& can_move_spec(from, sector_seq()[k], points) ==> sector_seq()[k].distance_fits(target)
                && from.distance_fits(target)
        }
}

/// A D6 roll that is not refused looks for moves of the rolled points; whatever the
/// die shows, their distances stay in range.
pub open spec fn d6_fits(s: RoomState, user: UserId) -> bool {
    d6_rejection(s, user) is None ==> moves_fit(seat(s, user).hex, 6, seat(s, user).target_hex->0)
}

/// A move that gets past the turn, stage, sector and target checks computes its
/// distance and, when within the points, the distances to the target; they stay in
/// range.
pub open spec fn move_fits(s: RoomState, user: UserId, to: HexCoord) -> bool {
    let t = seat(s, user);
    let target = t.target_hex->0;
    let d = t.hex.spec_distance(to);
    (s.phase == RoomPhase::Playing && s.active_user_id == Some(user)
        && stage_rejection(s, user, TurnStage::NeedMove, "move_token") is None && in_sector(to)
        && t.target_hex is Some) ==> {
        &&& t.hex.distance_fits(to)
        &&& 0 < d <= t.move_points ==> t.hex.distance_fits(target) && to.distance_fits(target)
    }
}

/// Where `legal_actions` looks for the member's moves (playing, on turn, to move,
/// with points and a target), their distances stay in range.
pub open spec fn legal_fits(s: RoomState, user: UserId) -> bool {
    let t = seat(s, user);
    (s.phase == RoomPhase::Playing && token_index(s.tokens@, user) >= 0 && s.active_user_id == Some(user)
        && t.travel_stage == TurnStage::NeedMove && t.move_points > 0 && t.target_hex is Some)
        ==> moves_fit(t.hex, t.move_points, t.target_hex->0)
}

/// What `step` asks of a room for an action: the `i32` distances a roll or a move
/// computes stay in range, and a roll or a move (either may end a travel) finds the
/// clock able to take two more hours. Other actions ask nothing.
pub open spec fn step_ready(s: RoomState, user: UserId, a: Action) -> bool {
    &&& (a is RollD6Move || a is MoveToken) ==> clock_can_advance(s.game_day, s.game_hour, 2)
    &&& a is RollD6Move ==> d6_fits(s, user)
    &&& a matches Action::MoveToken { to } ==> move_fits(s, user, to)
}

/// Fewer points reach fewer hexes, so they ask no more distances of `i32`.
pub proof fn lemma_moves_fit_fewer(from: HexCoord, p: u8, q: u8, target: HexCoord)
    requires
        moves_fit(from, q, target),
        p <= q,
    ensures
        moves_fit(from, p, target),
{
    assert forall|k: int| 0 <= k < 19 implies {
        &&& from.distance_fits(#[trigger] sector_seq()[k])
        &&& can_move_spec(from, sector_seq()[k], p) ==> sector_seq()[k].distance_fits(target)
            && from.distance_fits(target)
    } by {
        assert(can_move_spec(from, sector_seq()[k], p) ==> can_move_spec(from, sector_seq()[k], q));
    }
}

/// Whether looking for moves of up to `points` stays in `i32`.
fn check_moves_fit(from: HexCoord, points: u8, target: HexCoord) -> (b: bool)
    ensures
        b == moves_fit(from, points, target),
{
    let hexes = sector_hexes();
    let mut i: usize = 0;
    while i < 19
        invariant
            i <= 19,
            hexes@ == sector_seq(),
            forall|k: int|
                0 <= k < i ==> {
                    &&& from.distance_fits(#[trigger] sector_seq()[k])
                    &&& can_move_spec(from, sector_seq()[k], points) ==> sector_seq()[k].distance_fits(target)
                        && from.distance_fits(target)
                },
        decreases 19 - i,
    {
        let to = hexes[i];
        if !from.fits_distance(to) {
            return false;
        }
        if can_move(from, to, points) {
            if !to.fits_distance(target) || !from.fits_distance(target) {
                return false;
            }
        }
        i = i + 1;
    }
    true
}

/// Whether the room meets what `legal_actions` asks of it for this member.
pub fn is_legal_ready(state: &RoomState, user_id: UserId) -> (b: bool)
    ensures
        b == legal_fits(*state, user_id),
{
    proof {
        lemma_token_index(state.tokens@, user_id);
    }
    if state.phase != RoomPhase::Playing || !same_active(state.active_user_id, user_id) {
        return true;
    }
    match state.find_token(user_id) {
        Some(t) => match t.target_hex {
            Some(target) => {
                if t.travel_stage == TurnStage::NeedMove && t.move_points > 0 {
                    check_moves_fit(t.hex, t.move_points, target)
                } else {
                    true
                }
            },
            None => true,
        },
        None => true,
    }
}

/// Whether a room meets what `step` asks of it for this member and action.
pub fn is_step_ready(state: &RoomState, user_id: UserId, action: &Action) -> (b: bool)
    ensures
        b == step_ready(*state, user_id, *action),
{
    proof {
        lemma_token_index(state.tokens@, user_id);
    }
    let travel = match action {
        Action::RollD6Move => true,
        Action::MoveToken { .. } => true,
        _ => false,
    };
    if !travel {
        return true;
    }
    let total: u64 = state.game_day as u64 + (state.game_hour as u64 + 2) / 24;
    if total > u32::MAX as u64 {
        return false;
    }
    if state.phase != RoomPhase::Playing || !same_active(state.active_user_id, user_id) {
        return true;
    }
    let t = match state.find_token(user_id) {
        Some(t) => t,
        None => {
            return true;
        },
    };
    let target = match t.target_hex {
        Some(h) => h,
        None => {
            return true;
        },
    };
    match action {
        Action::RollD6Move => {
            if t.travel_stage != TurnStage::NeedD6 {
                return true;
            }
            check_moves_fit(t.hex, 6, target)
        },
        Action::MoveToken { to } => {
            let to = *to;
            if t.travel_stage != TurnStage::NeedMove || !is_sector_hex(to) {
                return true;
            }
            if !t.hex.fits_distance(to) {
                return false;
            }
            let d = t.hex.distance(to);
            if d > 0 && d <= t.move_points as u32 {
                t.hex.fits_distance(target) && to.fits_distance(target)
            } else {
                true
            }
        },
        _ => true,
    }
}

fn same_active(active: Option<UserId>, user_id: UserId) -> (b: bool)
    ensures
        b == (active == Some(user_id)),
{
    match active {
        Some(a) => a == user_id,
        None => false,
    }
}

pub open spec fn d6_rejection(s: RoomState, user: UserId) -> Option<DomainError> {
    if turn_rejection(s, user, TurnStage::NeedD6, "roll_d6_move") is Some {
        turn_rejection(s, user, TurnStage::NeedD6, "roll_d6_move")
    } else if seat(s, user).target_hex is None {
        Some(DomainError::IllegalStage { expected: "roll_d20_hex", got: "roll_d6_move" })
    } else {
        None
    }
}

/// The D6 gives movement points. A token already on its target ends its travel and
/// passes the turn; a token with no legal step towards the target loses the points
/// and rolls again; otherwise it waits to move. The die shows 1 to 6.
pub open spec fn d6_effect(s: RoomState, user: UserId, dice: (u64, Seq<(u8, u8)>), n: RoomState, ev: Seq<String>) -> bool {
    let v = seeded_roll(dice.0, dice.1, 1, 6);
    let i = token_index(s.tokens@, user);
    let t = s.tokens@[i];
    let target = t.target_hex->0;
    &&& 1 <= v <= 6
    &&& if t.hex == target {
        let day_hour = clock_after(s.game_day, s.game_hour, 2);
        &&& n == (RoomState {
            tokens: n.tokens,
            history: n.history,
            game_day: day_hour.0,
            game_hour: day_hour.1,
            active_user_id: next_active(s.tokens@, user),
            ..s
        })
        &&& n.tokens@ == s.tokens@.update(i, travel_done(t))
        &&& recorded(s, n, ev, seq![text_d6(v, user), text_arrived_debug(user, t.hex)])
    } else {
        &&& n == (RoomState { tokens: n.tokens, history: n.history, ..s })
        &&& n.tokens@ == s.tokens@.update(i, if has_move_toward(t.hex, v, target) {
            PlayerToken { move_points: v, travel_stage: TurnStage::NeedMove, ..t }
        } else {
            PlayerToken { move_points: 0, travel_stage: TurnStage::NeedD6, ..t }
        })
        &&& recorded(s, n, ev, seq![text_d6(v, user)])
    }
}

fn apply_roll_d6(state: RoomState, user_id: UserId, rng: &mut GameRng) -> (r: Result<(RoomState, Vec<String>), DomainError>)
    requires
        d6_fits(state, user_id),
        clock_can_advance(state.game_day, state.game_hour, 2),
    ensures
        d6_rejection(state, user_id) matches Some(e) ==> r == Err::<(RoomState, Vec<String>), DomainError>(e),
        d6_rejection(state, user_id) is None ==> (r matches Ok((n, ev)) && d6_effect(state, user_id, old(rng)@, n, ev@)),
{
    check_turn(&state, user_id, TurnStage::NeedD6, "roll_d6_move")?;
    let value = rng.d6();
    proof {
        lemma_token_index(state.tokens@, user_id);
    }
    let (hex, target) = match state.find_token(user_id) {
        Some(token) => match token.target_hex {
            Some(t) => (token.hex, t),
            None => {
                return Err(DomainError::IllegalStage { expected: "roll_d20_hex", got: "roll_d6_move" });
            },
        },
        None => {
            return Err(DomainError::UnknownPlayer);
        },
    };
    let ghost i = token_index(state.tokens@, user_id);
    proof {
        lemma_moves_fit_fewer(hex, value, 6, target);
    }
    let arrived_without_move = hex == target;
    let has_legal_move = any_move_toward(hex, value, target);
    let mut next = state;
    let mut events: Vec<String> = Vec::new();
    let token = next.find_token_mut(user_id).unwrap();
    token.move_points = value;
    token.travel_stage = TurnStage::NeedMove;
    let entry = d6_text(value, user_id);
    record(&mut next, &mut events, entry);
    if arrived_without_move {
        let entry = arrived_debug_text(user_id, hex);
        record(&mut next, &mut events, entry);
        proof {
            assert(same_seats(state.tokens@, next.tokens@));
            lemma_same_seats(state.tokens@, next.tokens@, user_id);
        }
        let ghost mid = next;
        finish_travel_and_turn(&mut next, user_id);
        proof {
            assert(next.tokens@ =~= state.tokens@.update(i, travel_done(state.tokens@[i])));
            assert(next_active(mid.tokens@, user_id) == next_active(state.tokens@, user_id)) by {
                lemma_same_seats(state.tokens@, mid.tokens@, user_id);
            }
        }
        assert(texts(events@) =~= seq![text_d6(value, user_id), text_arrived_debug(user_id, hex)]);
        assert(texts(next.history@) =~= texts(state.history@) + seq![text_d6(value, user_id), text_arrived_debug(user_id, hex)]);
    } else {
        let ghost mid = next;
        if !has_legal_move {
            proof {
                assert(same_seats(state.tokens@, next.tokens@));
                lemma_same_seats(state.tokens@, next.tokens@, user_id);
                lemma_token_index(next.tokens@, user_id);
            }
            let token = next.find_token_mut(user_id).unwrap();
            token.move_points = 0;
            token.travel_stage = TurnStage::NeedD6;
            assert(next.tokens@ =~= state.tokens@.update(i, PlayerToken { move_points: 0, travel_stage: TurnStage::NeedD6, ..state.tokens@[i] }));
        } else {
            assert(next.tokens@ =~= state.tokens@.update(i, PlayerToken { move_points: value, travel_stage: TurnStage::NeedMove, ..state.tokens@[i] }));
        }
        assert(texts(events@) =~= seq![text_d6(value, user_id)]);
        assert(texts(next.history@) =~= texts(state.history@) + seq![text_d6(value, user_id)]);
    }
    Ok((next, events))
}

pub open spec fn move_rejection(s: RoomState, user: UserId, to: HexCoord) -> Option<DomainError> {
    let t = seat(s, user);
    let target = t.target_hex->0;
    let d = t.hex.spec_distance(to);
    if s.phase != RoomPhase::Playing {
        Some(DomainError::StillInLobby)
    } else if s.active_user_id != Some(user) {
        Some(DomainError::NotActivePlayer)
    } else if stage_rejection(s, user, TurnStage::NeedMove, "move_token") is Some {
        stage_rejection(s, user, TurnStage::NeedMove, "move_token")
    } else if !in_sector(to) {
        Some(DomainError::IllegalMove { distance: u32::MAX, points: 0 })
    } else if t.target_hex is None {
        Some(DomainError::IllegalStage { expected: "roll_d20_hex", got: "move_token" })
    } else if d == 0 || d > t.move_points {
        Some(DomainError::IllegalMove { distance: d as u32, points: t.move_points })
    } else if to.spec_distance(target) >= t.hex.spec_distance(target) && to != target {
        Some(DomainError::IllegalMove { distance: d as u32, points: t.move_points })
    } else {
        None
    }
}

/// The token steps to `to`, spending the distance. Reaching the target ends the travel
/// and passes the turn; otherwise it keeps moving while points remain, else rolls again.
pub open spec fn move_effect(s: RoomState, user: UserId, to: HexCoord, n: RoomState, ev: Seq<String>) -> bool {
    let i = token_index(s.tokens@, user);
    let t = s.tokens@[i];
    let target = t.target_hex->0;
    let remaining = (t.move_points - t.hex.spec_distance(to)) as u8;
    if to == target {
        let day_hour = clock_after(s.game_day, s.game_hour, 2);
        &&& n == (RoomState {
            tokens: n.tokens,
            history: n.history,
            game_day: day_hour.0,
            game_hour: day_hour.1,
            active_user_id: next_active(s.tokens@, user),
            ..s
        })
        &&& n.tokens@ == s.tokens@.update(i, travel_done(PlayerToken { hex: to, ..t }))
        &&& recorded(s, n, ev, seq![text_moved(user, t.hex, to), text_arrived(user, to)])
    } else {
        &&& n == (RoomState { tokens: n.tokens, history: n.history, ..s })
        &&& n.tokens@ == s.tokens@.update(i, PlayerToken {
            hex: to,
            move_points: remaining,
            travel_stage: if remaining == 0 { TurnStage::NeedD6 } else { TurnStage::NeedMove },
            ..t
        })
        &&& recorded(s, n, ev, seq![text_moved(user, t.hex, to)])
    }
}

fn apply_move(state: RoomState, user_id: UserId, to: HexCoord) -> (r: Result<(RoomState, Vec<String>), DomainError>)
    requires
        move_fits(state, user_id, to),
        clock_can_advance(state.game_day, state.game_hour, 2),
    ensures
        move_rejection(state, user_id, to) matches Some(e) ==> r == Err::<(RoomState, Vec<String>), DomainError>(e),
        move_rejection(state, user_id, to) is None ==> (r matches Ok((n, ev)) && move_effect(state, user_id, to, n, ev@)),
{
    require_playing(&state)?;
    ensure_active_player(&state, user_id)?;
    ensure_stage(&state, user_id, TurnStage::NeedMove, "move_token")?;
    if !is_sector_hex(to) {
        return Err(DomainError::IllegalMove { distance: u32::MAX, points: 0 });
    }
    proof {
        lemma_token_index(state.tokens@, user_id);
    }
    let ghost i = token_index(state.tokens@, user_id);
    let (from, points, target_opt) = match state.find_token(user_id) {
        Some(token) => (token.hex, token.move_points, token.target_hex),
        None => {
            return Err(DomainError::UnknownPlayer);
        },
    };
    let target = match target_opt {
        Some(t) => t,
        None => {
            return Err(DomainError::IllegalStage { expected: "roll_d20_hex", got: "move_token" });
        },
    };
    proof {
        lemma_sector_hex_bounded(to);
    }
    let distance = from.distance(to);
    if distance == 0 || distance > points as u32 {
        return Err(DomainError::IllegalMove { distance, points });
    }
    let before_target_distance = from.distance(target);
    let after_target_distance = to.distance(target);
    if after_target_distance >= before_target_distance && to != target {
        return Err(DomainError::IllegalMove { distance, points });
    }
    let arrived = to == target;
    let remaining = points - distance as u8;
    let mut next = state;
    let mut events: Vec<String> = Vec::new();
    let token = next.find_token_mut(user_id).unwrap();
    token.hex = to;
    token.move_points = remaining;
    token.travel_stage = if arrived {
        TurnStage::NeedLocation
    } else if remaining == 0 {
        TurnStage::NeedD6
    } else {
        TurnStage::NeedMove
    };
    let entry = moved_text(user_id, from, to);
    record(&mut next, &mut events, entry);
    if arrived {
        let entry = arrived_text(user_id, to);
        record(&mut next, &mut events, entry);
        proof {
            assert(same_seats(state.tokens@, next.tokens@));
            lemma_same_seats(state.tokens@, next.tokens@, user_id);
        }
        let ghost mid = next;
        finish_travel_and_turn(&mut next, user_id);
        proof {
            assert(next.tokens@ =~= state.tokens@.update(i, travel_done(PlayerToken { hex: to, ..state.tokens@[i] })));
            assert(next_active(mid.tokens@, user_id) == next_active(state.tokens@, user_id)) by {
                lemma_same_seats(state.tokens@, mid.tokens@, user_id);
            }
        }
        assert(texts(events@) =~= seq![text_moved(user_id, from, to), text_arrived(user_id, to)]);
        assert(texts(next.history@) =~= texts(state.history@) + seq![text_moved(user_id, from, to), text_arrived(user_id, to)]);
    } else {
        assert(texts(events@) =~= seq![text_moved(user_id, from, to)]);
        assert(texts(next.history@) =~= texts(state.history@) + seq![text_moved(user_id, from, to)]);
    }
    Ok((next, events))
}

// ---------------------------------------------------------------------------------
// Legal actions and the step function

/// The sector hexes among `hexes` that are legal moves towards the target, in order,
/// as move actions.
pub open spec fn moves_toward(hexes: Seq<HexCoord>, from: HexCoord, points: u8, target: HexCoord) -> Seq<ActionModel>
    decreases hexes.len(),
{
    if hexes.len() == 0 {
        Seq::empty()
    } else {
        let rest = moves_toward(hexes.drop_last(), from, points, target);
        if toward_target_spec(from, hexes.last(), points, target) {
            rest.push(ActionModel::MoveToken { to: hexes.last() })
        } else {
            rest
        }
    }
}

/// What the active player may do at a travel stage.
pub open spec fn stage_actions(t: PlayerToken) -> Seq<ActionModel> {
    match t.travel_stage {
        TurnStage::Idle => Seq::empty(),
        TurnStage::NeedLocation => seq![ActionModel::RollD20Location],
        TurnStage::NeedSector => seq![ActionModel::DrawCcc],
        TurnStage::NeedHex => seq![ActionModel::RollD20Hex],
        TurnStage::NeedD6 => seq![ActionModel::RollD6Move],
        TurnStage::NeedMove => if t.move_points > 0 && t.target_hex is Some {
            moves_toward(sector_seq(), t.hex, t.move_points, t.target_hex->0)
        } else {
            Seq::empty()
        },
    }
}

/// The actions offered to a member. In the lobby: a seated member may toggle ready
/// and chat; the GM may start once the lobby can start. While playing: the active
/// seated member gets the actions of its travel stage, every seated member may chat,
/// and the GM may spawn an NPC.
pub open spec fn legal_model(s: RoomState, user: UserId, role: MemberRole) -> Seq<ActionModel> {
    let i = token_index(s.tokens@, user);
    let chat = ActionModel::Chat { text: Seq::empty() };
    match s.phase {
        RoomPhase::Lobby => {
            let own = if i >= 0 {
                seq![ActionModel::SetReady { ready: !s.tokens@[i].ready }, chat]
            } else {
                Seq::empty()
            };
            if role == MemberRole::Gm && room_can_start(s) { own.push(ActionModel::StartGame) } else { own }
        },
        RoomPhase::Playing => {
            let own = if i >= 0 {
                (if s.active_user_id == Some(user) { stage_actions(s.tokens@[i]) } else { Seq::empty() }).push(chat)
            } else {
                Seq::empty()
            };
            if role == MemberRole::Gm {
                own.push(ActionModel::SpawnNpc { name: "NPC"@, kind: NpcKind::Stalker })
            } else {
                own
            }
        },
    }
}

/// The views of a list of actions.
pub open spec fn action_views(v: Seq<Action>) -> Seq<ActionModel> {
    v.map_values(|a: Action| a@)
}

proof fn lemma_views_push(v: Seq<Action>, a: Action)
    ensures
        action_views(v.push(a)) == action_views(v).push(a@),
{
    assert(action_views(v.push(a)) =~= action_views(v).push(a@));
}

fn push_action(v: &mut Vec<Action>, a: Action)
    ensures
        action_views(final(v)@) == action_views(old(v)@).push(a@),
{
    proof {
        lemma_views_push(v@, a);
    }
    v.push(a);
}

fn push_moves(actions: &mut Vec<Action>, from: HexCoord, points: u8, target: HexCoord)
    requires
        moves_fit(from, points, target),
    ensures
        action_views(final(actions)@) == action_views(old(actions)@) + moves_toward(sector_seq(), from, points, target),
{
    let hexes = sector_hexes();
    let mut i: usize = 0;
    let ghost start = actions@;
    while i < 19
        invariant
            i <= 19,
            hexes@ == sector_seq(),
            moves_fit(from, points, target),
            action_views(actions@) == action_views(start) + moves_toward(sector_seq().take(i as int), from, points, target),
        decreases 19 - i,
    {
        proof {
            assert(from.distance_fits(sector_seq()[i as int]));
            assert(sector_seq().take(i as int + 1).drop_last() =~= sector_seq().take(i as int));
            assert(sector_seq().take(i as int + 1).last() == hexes@[i as int]);
        }
        let to = hexes[i];
        if can_move_toward_target(from, to, points, target) {
            push_action(actions, Action::MoveToken { to });
            assert(action_views(actions@) =~= action_views(start) + moves_toward(sector_seq().take(i as int + 1), from, points, target));
        } else {
            assert(action_views(actions@) =~= action_views(start) + moves_toward(sector_seq().take(i as int + 1), from, points, target));
        }
        i = i + 1;
    }
    assert(sector_seq().take(19) =~= sector_seq());
}

pub fn legal_actions(state: &RoomState, user_id: UserId, role: MemberRole) -> (actions: Vec<Action>)
    requires
        legal_fits(*state, user_id),
    ensures
        action_views(actions@) == legal_model(*state, user_id, role),
{
    proof {
        lemma_token_index(state.tokens@, user_id);
    }
    let ghost i = token_index(state.tokens@, user_id);
    let mut actions: Vec<Action> = Vec::new();
    assert(action_views(actions@) =~= Seq::<ActionModel>::empty());
    match state.phase {
        RoomPhase::Lobby => {
            match state.find_token(user_id) {
                Some(token) => {
                    let ready = token.ready;
                    push_action(&mut actions, Action::SetReady { ready: !ready });
                    push_action(&mut actions, Action::Chat { text: String::new() });
                },
                None => {},
            }
            assert(action_views(actions@) =~= (if i >= 0 {
                seq![ActionModel::SetReady { ready: !state.tokens@[i].ready }, ActionModel::Chat { text: Seq::empty() }]
            } else {
                Seq::empty()
            }));
            if role == MemberRole::Gm && state.can_start() {
                push_action(&mut actions, Action::StartGame);
            }
        },
        RoomPhase::Playing => {
            match state.find_token(user_id) {
                Some(token) => {
                    let is_active = match state.active_user_id {
                        Some(a) => a == user_id,
                        None => false,
                    };
                    if is_active {
                        match token.travel_stage {
                            TurnStage::Idle => {},
                            TurnStage::NeedLocation => push_action(&mut actions, Action::RollD20Location),
                            TurnStage::NeedSector => push_action(&mut actions, Action::DrawCcc),
                            TurnStage::NeedHex => push_action(&mut actions, Action::RollD20Hex),
                            TurnStage::NeedD6 => push_action(&mut actions, Action::RollD6Move),
                            TurnStage::NeedMove => {
                                if token.move_points > 0 {
                                    match token.target_hex {
                                        Some(target) => {
                                            push_moves(&mut actions, token.hex, token.move_points, target);
                                        },
                                        None => {},
                                    }
                                }
                            },
                        }
                        assert(action_views(actions@) =~= stage_actions(state.tokens@[i]));
                    }
                    push_action(&mut actions, Action::Chat { text: String::new() });
                },
                None => {},
            }
            if role == MemberRole::Gm {
                let name = String::from_str("NPC");
                push_action(&mut actions, Action::SpawnNpc { name, kind: NpcKind::Stalker });
            }
        },
    }
    actions
}

/// The dice stream at the start of a step: seeded from the room, with one D20 drawn for
/// every history entry already recorded.
pub open spec fn warmed(s: RoomState) -> (u64, Seq<(u8, u8)>) {
    (s.rng_seed, Seq::new(s.history@.len(), |_i: int| (1u8, 20u8)))
}

/// How a step ends: with the refusal when there is one, otherwise with a room that
/// the action's effect describes, whose seed then moves on by the history length.
pub open spec fn settles(
    s: RoomState,
    rejection: Option<DomainError>,
    r: Result<StepOutcome, DomainError>,
    effect: spec_fn(RoomState, Seq<String>) -> bool,
) -> bool {
    match rejection {
        Some(e) => r == Err::<StepOutcome, DomainError>(e),
        None => match r {
            Ok(o) => {
                &&& effect(RoomState { rng_seed: s.rng_seed, ..o.state }, o.events@)
                &&& o.state.rng_seed == vstd::wrapping::u64_specs::wrapping_add(
                    s.rng_seed,
                    o.state.history@.len() as u64,
                )
            },
            Err(_) => false,
        },
    }
}

/// The refusal of the round-phase actions, which this engine does not play.
pub open spec fn round_action_rejection() -> DomainError {
    DomainError::Forbidden("round actions are not played by this engine")
}

/// What `step` does with each action.
pub open spec fn step_spec(s: RoomState, user: UserId, role: MemberRole, action: Action, r: Result<StepOutcome, DomainError>) -> bool {
    match action {
        Action::SetReady { ready } => settles(s, set_ready_rejection(s, user), r,
            |n: RoomState, ev: Seq<String>| set_ready_effect(s, user, ready, n, ev)),
        Action::StartGame => settles(s, start_game_rejection(s, role), r,
            |n: RoomState, ev: Seq<String>| start_game_effect(s, n, ev)),
        Action::StartMission { mission_id } => settles(s, start_mission_rejection(s, role, mission_id), r,
            |n: RoomState, ev: Seq<String>| start_mission_effect(s, mission_id, n, ev)),
        Action::RollD20Location => settles(s, location_rejection(s, user, warmed(s)), r,
            |n: RoomState, ev: Seq<String>| location_effect(s, user, warmed(s), n, ev)),
        Action::DrawCcc => settles(s, draw_ccc_rejection(s, user), r,
            |n: RoomState, ev: Seq<String>| draw_ccc_effect(s, user, n, ev)),
        Action::RollD20Hex => settles(s, hex_roll_rejection(s, user, warmed(s)), r,
            |n: RoomState, ev: Seq<String>| hex_roll_effect(s, user, warmed(s), n, ev)),
        Action::RollD6Move => settles(s, d6_rejection(s, user), r,
            |n: RoomState, ev: Seq<String>| d6_effect(s, user, warmed(s), n, ev)),
        Action::MoveToken { to } => settles(s, move_rejection(s, user, to), r,
            |n: RoomState, ev: Seq<String>| move_effect(s, user, to, n, ev)),
        Action::SpawnNpc { name, kind } => settles(s, spawn_npc_rejection(s, role), r,
            |n: RoomState, ev: Seq<String>| spawn_npc_effect(s, name@, kind, n, ev)),
        Action::Chat { text } => settles(s, chat_rejection(s, user), r,
            |n: RoomState, ev: Seq<String>| chat_effect(s, user, text@, n, ev)),
        _ => r == Err::<StepOutcome, DomainError>(round_action_rejection()),
    }
}

fn finish_step(next: RoomState, events: Vec<String>) -> (o: StepOutcome)
    ensures
        o.state == (RoomState { rng_seed: o.state.rng_seed, ..next }),
        o.events == events,
        o.state.rng_seed == vstd::wrapping::u64_specs::wrapping_add(next.rng_seed, next.history@.len() as u64),
{
    let mut state = next;
    state.rng_seed = state.rng_seed.wrapping_add(state.history.len() as u64);
    StepOutcome { state, events }
}

/// Applies an action for a member. A refused action returns `Err` (the caller's room
/// is untouched); an accepted one returns the new room and the history entries it
/// added, and moves the dice seed on by the new history length.
///
/// A location or hex roll rerolls an unusable D20 at most `ROLL_LIMIT` times and then
/// gives up with `InvalidDice`, so that every step ends. The round-phase actions
/// (`RollExitZone`, `RollExploreD6`, `DrawEvent`, `ReturnToBase`, `FinishBase`) are
/// refused with `Forbidden`: which member plays them, what the wrong phase answers
/// and how exploring moves a token are not fixed, so `step` leaves them out; the
/// round's own steps are the functions of `pilgrim`. Only a roll or a move asks anything of the room
/// (`step_ready`): that its `i32` distances stay in range and the clock can take two
/// more hours.
pub fn step(state: RoomState, user_id: UserId, role: MemberRole, action: Action) -> (r: Result<StepOutcome, DomainError>)
    requires
        step_ready(state, user_id, action),
    ensures
        step_spec(state, user_id, role, action, r),
{
    let mut rng = GameRng::from_seed(state.rng_seed);
    let n = state.history.len();
    let mut k: usize = 0;
    while k < n
        invariant
            k <= n,
            rng@ == (state.rng_seed, Seq::new(k as nat, |_i: int| (1u8, 20u8))),
        decreases n - k,
    {
        let _ = rng.d20();
        assert(Seq::new(k as nat, |_i: int| (1u8, 20u8)).push((1u8, 20u8)) =~= Seq::new((k + 1) as nat, |_i: int| (1u8, 20u8)));
        k = k + 1;
    }
    assert(rng@ == warmed(state));
    let ghost s = state;
    let applied = match action {
        Action::SetReady { ready } => apply_set_ready(state, user_id, ready),
        Action::StartGame => apply_start_game(state, role),
        Action::StartMission { mission_id } => apply_start_mission(state, role, mission_id),
        Action::RollD20Location => apply_roll_location(state, user_id, &mut rng),
        Action::DrawCcc => apply_draw_ccc(state, user_id),
        Action::RollD20Hex => apply_roll_hex(state, user_id, &mut rng),
        Action::RollD6Move => apply_roll_d6(state, user_id, &mut rng),
        Action::MoveToken { to } => apply_move(state, user_id, to),
        Action::SpawnNpc { name, kind } => apply_spawn_npc(state, role, name, kind),
        Action::Chat { text } => apply_chat(state, user_id, text),
        _ => Err(DomainError::Forbidden("round actions are not played by this engine")),
    };
    match applied {
        Ok((next, events)) => {
            assert(next.rng_seed == s.rng_seed);
            Ok(finish_step(next, events))
        },
        Err(e) => Err(e),
    }
}

} // verus!
