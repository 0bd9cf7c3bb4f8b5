//! Messages between clients and the server, and the lobby view a member sees.
use vstd::prelude::*;

use crate::actions::{Action, ActionModel};
use crate::engine::{action_views, legal_actions, legal_fits, legal_model};
use crate::events::EventToken;
use crate::hex::HexCoord;
use crate::history::{hex_pair, texts};
use crate::ids::{DiceKind, MemberRole, UserId};
use crate::lobby::RoomPhase;
use crate::location::{location_name, CccDraw, LocationId};
use crate::mission::{MissionDef, mission_briefing, mission_exists, mission_objective, mission_title};
use crate::npc::{NpcKind, npc_kind_wire, npc_kind_wire_id};
use crate::room::{RoomState, lemma_token_index, room_can_start, token_index};
use crate::round::round_phase_wire_id;
use crate::text::{bool_text, decimal, push_bool, push_decimal, push_signed};
use crate::token::{PlayerToken, TurnStage};

verus! {

#[derive(Debug, Clone, PartialEq, Eq)]
pub struct AuthRequest {
    pub username: String,
    pub password: String,
}

#[derive(Debug, Clone, PartialEq, Eq)]
pub struct AuthResponse {
    /// The 128 bits of the user's UUID.
    pub user_id: u128,
    pub username: String,
    pub access_token: String,
    pub token_type: String,
}

#[derive(Debug, Clone, PartialEq, Eq)]
pub struct CreateRoomResponse {
    /// The 128 bits of the room's UUID.
    pub room_id: u128,
    pub code: String,
    pub min_players: u8,
    pub max_players: u8,
}

#[derive(Debug, Clone, PartialEq, Eq)]
pub struct EventTokenView {
    pub id: u32,
    pub hex: HexCoord,
    pub resolved: bool,
}

#[derive(Debug, Clone, PartialEq, Eq)]
pub struct LobbyPlayerView {
    pub user_id: u128,
    pub display_name: String,
    pub ready: bool,
    pub is_gm: bool,
    pub location: Option<String>,
    pub sector: Option<u8>,
    pub ccc_tens: Option<u8>,
    pub ccc_units: Option<u8>,
    pub hex: HexCoord,
    pub target_hex: Option<HexCoord>,
    pub move_points: u8,
    pub travel_stage: String,
    pub hp: u16,
    pub rubles: u32,
    pub artifacts: u8,
}

#[derive(Debug, Clone, PartialEq, Eq)]
pub struct LobbyNpcView {
    pub name: String,
    pub kind: String,
    pub hex: HexCoord,
}

#[derive(Debug, Clone, PartialEq, Eq)]
pub struct LobbyView {
    pub code: String,
    pub phase: String,
    pub round_phase: String,
    pub round_number: u32,
    pub min_players: u8,
    pub max_players: u8,
    pub player_count: u8,
    pub can_start: bool,
    pub mission_id: u8,
    pub mission_title: String,
    pub mission_objective: String,
    pub mission_briefing: String,
    pub game_day: u32,
    pub game_hour: u8,
    pub active_user_id: Option<u128>,
    pub active_display_name: Option<String>,
    pub players: Vec<LobbyPlayerView>,
    pub npcs: Vec<LobbyNpcView>,
    pub event_tokens: Vec<EventTokenView>,
    pub last_event: Option<String>,
    pub history: Vec<String>,
    /// Wire ids of the viewer's legal actions (empty without a viewer).
    pub legal_actions: Vec<String>,
}

/// How a travel stage is written on the wire.
pub open spec fn travel_stage_wire(stage: TurnStage) -> Seq<char> {
    match stage {
        TurnStage::Idle => "idle"@,
        TurnStage::NeedLocation => "need_location"@,
        TurnStage::NeedSector => "need_sector"@,
        TurnStage::NeedHex => "need_hex"@,
        TurnStage::NeedD6 => "need_d6"@,
        TurnStage::NeedMove => "need_move"@,
    }
}

pub fn travel_stage_wire_id(stage: TurnStage) -> (s: &'static str)
    ensures
        s@ == travel_stage_wire(stage),
{
    match stage {
        TurnStage::Idle => "idle",
        TurnStage::NeedLocation => "need_location",
        TurnStage::NeedSector => "need_sector",
        TurnStage::NeedHex => "need_hex",
        TurnStage::NeedD6 => "need_d6",
        TurnStage::NeedMove => "need_move",
    }
}

/// The wire id of an action; chat has none.
pub open spec fn action_wire(a: ActionModel) -> Option<Seq<char>> {
    match a {
        ActionModel::SetReady { ready } => Some("set_ready:"@ + bool_text(ready)),
        ActionModel::StartGame => Some("start_game"@),
        ActionModel::StartMission { mission_id } => Some("start_mission:"@ + decimal(mission_id as nat)),
        ActionModel::RollExitZone => Some("roll_exit_zone"@),
        ActionModel::RollExploreD6 => Some("roll_explore_d6"@),
        ActionModel::DrawEvent => Some("draw_event"@),
        ActionModel::ReturnToBase => Some("return_to_base"@),
        ActionModel::FinishBase => Some("finish_base"@),
        ActionModel::RollD20Location => Some("roll_d20_location"@),
        ActionModel::DrawCcc => Some("draw_ccc"@),
        ActionModel::RollD20Hex => Some("roll_d20_hex"@),
        ActionModel::RollD6Move => Some("roll_d6_move"@),
        ActionModel::MoveToken { to } => Some("move_token:"@ + hex_pair(to)),
        ActionModel::SpawnNpc { .. } => Some("spawn_npc"@),
        ActionModel::Chat { .. } => None,
    }
}

/// The wire ids of the actions that have one, in order.
pub open spec fn wire_list(v: Seq<ActionModel>) -> Seq<Seq<char>>
    decreases v.len(),
{
    if v.len() == 0 {
        Seq::empty()
    } else {
        let rest = wire_list(v.drop_last());
        match action_wire(v.last()) {
            Some(w) => rest.push(w),
            None => rest,
        }
    }
}

fn text_of(s: &str) -> (r: String)
    ensures
        r@ == s@,
{
    String::from_str(s)
}

pub fn action_wire_id(action: &Action) -> (r: Option<String>)
    ensures
        action_wire(action@) matches Some(w) ==> (r matches Some(t) && t@ == w),
        action_wire(action@) is None ==> r is None,
{
    match action {
        Action::SetReady { ready } => {
            let mut s = text_of("set_ready:");
            push_bool(&mut s, *ready);
            Some(s)
        },
        Action::StartGame => Some(text_of("start_game")),
        Action::StartMission { mission_id } => {
            let mut s = text_of("start_mission:");
            push_decimal(&mut s, *mission_id as u64);
            Some(s)
        },
        Action::RollExitZone => Some(text_of("roll_exit_zone")),
        Action::RollExploreD6 => Some(text_of("roll_explore_d6")),
        Action::DrawEvent => Some(text_of("draw_event")),
        Action::ReturnToBase => Some(text_of("return_to_base")),
        Action::FinishBase => Some(text_of("finish_base")),
        Action::RollD20Location => Some(text_of("roll_d20_location")),
        Action::DrawCcc => Some(text_of("draw_ccc")),
        Action::RollD20Hex => Some(text_of("roll_d20_hex")),
        Action::RollD6Move => Some(text_of("roll_d6_move")),
        Action::MoveToken { to } => {
            let mut s = text_of("move_token:");
            push_signed(&mut s, to.q as i64);
            s.append(",");
            push_signed(&mut s, to.r as i64);
            assert(s@ =~= "move_token:"@ + hex_pair(*to));
            Some(s)
        },
        Action::SpawnNpc { .. } => Some(text_of("spawn_npc")),
        Action::Chat { .. } => None,
    }
}

/// A client's request over the socket.
#[derive(Debug, Clone, PartialEq, Eq)]
pub enum ClientMsg {
    JoinRoom { code: String },
    SetReady { ready: bool },
    StartGame,
    StartMission { mission_id: u8 },
    RollExitZone,
    RollExploreD6,
    DrawEvent,
    ReturnToBase,
    FinishBase,
    RollD20Location,
    DrawCcc,
    RollD20Hex,
    RollD6Move,
    MoveToken { to: HexCoord },
    SpawnNpc { name: String, kind: NpcKind },
    Chat { text: String },
}

/// The action a message asks for: joining is not an action, every other message is
/// the action of the same name with the same fields.
pub open spec fn msg_action(m: ClientMsg) -> Option<ActionModel> {
    match m {
        ClientMsg::JoinRoom { .. } => None,
        ClientMsg::SetReady { ready } => Some(ActionModel::SetReady { ready }),
        ClientMsg::StartGame => Some(ActionModel::StartGame),
        ClientMsg::StartMission { mission_id } => Some(ActionModel::StartMission { mission_id }),
        ClientMsg::RollExitZone => Some(ActionModel::RollExitZone),
        ClientMsg::RollExploreD6 => Some(ActionModel::RollExploreD6),
        ClientMsg::DrawEvent => Some(ActionModel::DrawEvent),
        ClientMsg::ReturnToBase => Some(ActionModel::ReturnToBase),
        ClientMsg::FinishBase => Some(ActionModel::FinishBase),
        ClientMsg::RollD20Location => Some(ActionModel::RollD20Location),
        ClientMsg::DrawCcc => Some(ActionModel::DrawCcc),
        ClientMsg::RollD20Hex => Some(ActionModel::RollD20Hex),
        ClientMsg::RollD6Move => Some(ActionModel::RollD6Move),
        ClientMsg::MoveToken { to } => Some(ActionModel::MoveToken { to }),
        ClientMsg::SpawnNpc { name, kind } => Some(ActionModel::SpawnNpc { name: name@, kind }),
        ClientMsg::Chat { text } => Some(ActionModel::Chat { text: text@ }),
    }
}

impl ClientMsg {
    pub fn into_action(self) -> (r: Option<Action>)
        ensures
            msg_action(self) is None ==> r is None,
            msg_action(self) matches Some(a) ==> (r matches Some(x) && x@ == a),
    {
        match self {
            ClientMsg::JoinRoom { .. } => None,
            ClientMsg::SetReady { ready } => Some(Action::SetReady { ready }),
            ClientMsg::StartGame => Some(Action::StartGame),
            ClientMsg::StartMission { mission_id } => Some(Action::StartMission { mission_id }),
            ClientMsg::RollExitZone => Some(Action::RollExitZone),
            ClientMsg::RollExploreD6 => Some(Action::RollExploreD6),
            ClientMsg::DrawEvent => Some(Action::DrawEvent),
            ClientMsg::ReturnToBase => Some(Action::ReturnToBase),
            ClientMsg::FinishBase => Some(Action::FinishBase),
            ClientMsg::RollD20Location => Some(Action::RollD20Location),
            ClientMsg::DrawCcc => Some(Action::DrawCcc),
            ClientMsg::RollD20Hex => Some(Action::RollD20Hex),
            ClientMsg::RollD6Move => Some(Action::RollD6Move),
            ClientMsg::MoveToken { to } => Some(Action::MoveToken { to }),
            ClientMsg::SpawnNpc { name, kind } => Some(Action::SpawnNpc { name, kind }),
            ClientMsg::Chat { text } => Some(Action::Chat { text }),
        }
    }
}

/// The mission the lobby shows: the room's mission, or mission 1 when it is not in the
/// catalogue.
pub open spec fn shown_mission(id: u8) -> u8 {
    if mission_exists(id) { id } else { 1 }
}

/// A player's row in the lobby view mirrors the token.
pub open spec fn shows_player(v: LobbyPlayerView, t: PlayerToken, gm: UserId) -> bool {
    &&& v.user_id == t.user_id.0
    &&& v.display_name@ == t.display_name@
    &&& v.ready == t.ready
    &&& v.is_gm == (t.user_id == gm)
    &&& (t.location is None ==> v.location is None)
    &&& (t.location matches Some(l) ==> (v.location matches Some(n) && n@ == location_name(l)))
    &&& v.sector == t.sector
    &&& v.ccc_tens == t.ccc_tens
    &&& v.ccc_units == t.ccc_units
    &&& v.hex == t.hex
    &&& v.target_hex == t.target_hex
    &&& v.move_points == t.move_points
    &&& v.travel_stage@ == travel_stage_wire(t.travel_stage)
    &&& v.hp == t.hp
    &&& v.rubles == t.rubles
    &&& v.artifacts == t.artifacts
}

/// Where the shown history starts: the last sixteen entries are shown.
pub open spec fn history_start(len: nat) -> int {
    if len > 16 { len - 16 } else { 0 }
}

/// The view of a room for an optional viewer with a role.
pub open spec fn shows_room(v: LobbyView, s: RoomState, viewer: Option<UserId>, role: MemberRole) -> bool {
    let m = shown_mission(s.mission_id);
    &&& v.code@ == s.code@
    &&& v.phase@ == (if s.phase == RoomPhase::Lobby { "lobby"@ } else { "playing"@ })
    &&& v.round_phase@ == (if s.phase == RoomPhase::Lobby { Seq::empty() } else { round_phase_wire_id(s.round_phase) })
    &&& v.round_number == s.round_number
    &&& v.min_players == s.min_players
    &&& v.max_players == s.max_players
    &&& v.player_count == s.tokens@.len() as u8
    &&& v.can_start == room_can_start(s)
    &&& v.mission_id == s.mission_id
    &&& v.mission_title@ == mission_title(m)
    &&& v.mission_objective@ == mission_objective(m)
    &&& v.mission_briefing@ == mission_briefing(m)
    &&& v.game_day == s.game_day
    &&& v.game_hour == s.game_hour
    &&& v.active_user_id == (match s.active_user_id { Some(u) => Some(u.0), None => None })
    &&& (match s.active_user_id {
        Some(u) => if token_index(s.tokens@, u) >= 0 {
            v.active_display_name matches Some(n) && n@ == s.tokens@[token_index(s.tokens@, u)].display_name@
        } else {
            v.active_display_name is None
        },
        None => v.active_display_name is None,
    })
    &&& v.players@.len() == s.tokens@.len()
    &&& forall|i: int| 0 <= i < s.tokens@.len() ==> shows_player(#[trigger] v.players@[i], s.tokens@[i], s.gm_user_id)
    &&& v.npcs@.len() == s.npcs@.len()
    &&& forall|i: int| 0 <= i < s.npcs@.len() ==> {
        &&& (#[trigger] v.npcs@[i]).name@ == s.npcs@[i].name@
        &&& v.npcs@[i].kind@ == npc_kind_wire(s.npcs@[i].kind)
        &&& v.npcs@[i].hex == s.npcs@[i].hex
    }
    &&& v.event_tokens@.len() == s.event_tokens@.len()
    &&& forall|i: int| 0 <= i < s.event_tokens@.len() ==> (#[trigger] v.event_tokens@[i]) == (EventTokenView {
        id: s.event_tokens@[i].id,
        hex: s.event_tokens@[i].hex,
        resolved: s.event_tokens@[i].resolved,
    })
    &&& (s.last_event is None ==> v.last_event is None)
    &&& (s.last_event matches Some(e) ==> (v.last_event matches Some(x) && x@ == e@))
    &&& texts(v.history@) == texts(s.history@).skip(history_start(s.history@.len()))
    &&& texts(v.legal_actions@) == (match viewer {
        Some(u) => wire_list(legal_model(s, u, role)),
        None => Seq::empty(),
    })
}

fn player_view(t: &PlayerToken, gm: UserId) -> (v: LobbyPlayerView)
    ensures
        shows_player(v, *t, gm),
{
    LobbyPlayerView {
        user_id: t.user_id.0,
        display_name: t.display_name.clone(),
        ready: t.ready,
        is_gm: t.user_id == gm,
        location: match t.location {
            Some(l) => Some(text_of(l.name_ru())),
            None => None,
        },
        sector: t.sector,
        ccc_tens: t.ccc_tens,
        ccc_units: t.ccc_units,
        hex: t.hex,
        target_hex: t.target_hex,
        move_points: t.move_points,
        travel_stage: text_of(travel_stage_wire_id(t.travel_stage)),
        hp: t.hp,
        rubles: t.rubles,
        artifacts: t.artifacts,
    }
}

fn wire_ids(actions: &Vec<Action>) -> (v: Vec<String>)
    ensures
        texts(v@) == wire_list(action_views(actions@)),
{
    let mut v: Vec<String> = Vec::new();
    let mut i: usize = 0;
    while i < actions.len()
        invariant
            i <= actions@.len(),
            texts(v@) == wire_list(action_views(actions@.take(i as int))),
        decreases actions@.len() - i,
    {
        proof {
            assert(actions@.take(i as int + 1).drop_last() =~= actions@.take(i as int));
            assert(action_views(actions@.take(i as int + 1)).drop_last() =~= action_views(actions@.take(i as int)));
        }
        match action_wire_id(&actions[i]) {
            Some(w) => {
                let ghost before = v@;
                v.push(w);
                assert(texts(v@) =~= texts(before).push(w@));
            },
            None => {},
        }
        i = i + 1;
    }
    assert(actions@.take(actions@.len() as int) =~= actions@);
    v
}

impl LobbyView {
    /// The room as shown to nobody in particular (no legal actions).
    pub fn from_state(state: &RoomState) -> (v: LobbyView)
        ensures
            shows_room(v, *state, None, MemberRole::Player),
    {
        LobbyView::from_state_for(state, None, MemberRole::Player)
    }

    /// The room as a viewer with a role sees it, including the viewer's legal actions.
    pub fn from_state_for(state: &RoomState, viewer: Option<UserId>, role: MemberRole) -> (v: LobbyView)
        requires
            viewer matches Some(u) ==> legal_fits(*state, u),
        ensures
            shows_room(v, *state, viewer, role),
    {
        let legal = match viewer {
            Some(uid) => {
                let acts = legal_actions(state, uid, role);
                wire_ids(&acts)
            },
            None => Vec::new(),
        };
        assert(viewer is None ==> texts(legal@) =~= Seq::<Seq<char>>::empty());
        let hist_len = state.history.len();
        let start = if hist_len > 16 { hist_len - 16 } else { 0 };
        let mut history: Vec<String> = Vec::new();
        let mut k: usize = start;
        while k < hist_len
            invariant
                start <= k <= hist_len,
                hist_len == state.history@.len(),
                start == history_start(hist_len as nat),
                texts(history@) == texts(state.history@).subrange(start as int, k as int),
            decreases hist_len - k,
        {
            let ghost before = history@;
            let entry = state.history[k].clone();
            history.push(entry);
            assert(texts(history@) =~= texts(before).push(state.history@[k as int]@));
            assert(texts(history@) =~= texts(state.history@).subrange(start as int, k as int + 1));
            k = k + 1;
        }
        assert(texts(state.history@).subrange(start as int, hist_len as int) =~= texts(state.history@).skip(start as int));
        let mission = match MissionDef::get(state.mission_id) {
            Some(m) => m,
            None => MissionDef::get(1).unwrap(),
        };
        proof {
            if let Some(u) = state.active_user_id {
                lemma_token_index(state.tokens@, u);
            }
        }
        let active_display_name = match state.active_user_id {
            Some(id) => match state.find_token(id) {
                Some(t) => Some(t.display_name.clone()),
                None => None,
            },
            None => None,
        };
        let mut players: Vec<LobbyPlayerView> = Vec::new();
        let mut i: usize = 0;
        while i < state.tokens.len()
            invariant
                i <= state.tokens@.len(),
                players@.len() == i,
                forall|j: int| 0 <= j < i ==> shows_player(#[trigger] players@[j], state.tokens@[j], state.gm_user_id),
            decreases state.tokens@.len() - i,
        {
            players.push(player_view(&state.tokens[i], state.gm_user_id));
            i = i + 1;
        }
        let mut npcs: Vec<LobbyNpcView> = Vec::new();
        let mut i: usize = 0;
        while i < state.npcs.len()
            invariant
                i <= state.npcs@.len(),
                npcs@.len() == i,
                forall|j: int| 0 <= j < i ==> {
                    &&& (#[trigger] npcs@[j]).name@ == state.npcs@[j].name@
                    &&& npcs@[j].kind@ == npc_kind_wire(state.npcs@[j].kind)
                    &&& npcs@[j].hex == state.npcs@[j].hex
                },
            decreases state.npcs@.len() - i,
        {
            let npc = &state.npcs[i];
            npcs.push(LobbyNpcView {
                name: npc.name.clone(),
                kind: text_of(npc_kind_wire_id(npc.kind)),
                hex: npc.hex,
            });
            i = i + 1;
        }
        let mut event_tokens: Vec<EventTokenView> = Vec::new();
        let mut i: usize = 0;
        while i < state.event_tokens.len()
            invariant
                i <= state.event_tokens@.len(),
                event_tokens@.len() == i,
                forall|j: int| 0 <= j < i ==> (#[trigger] event_tokens@[j]) == (EventTokenView {
                    id: state.event_tokens@[j].id,
                    hex: state.event_tokens@[j].hex,
                    resolved: state.event_tokens@[j].resolved,
                }),
            decreases state.event_tokens@.len() - i,
        {
            let t = state.event_tokens[i];
            event_tokens.push(EventTokenView { id: t.id, hex: t.hex, resolved: t.resolved });
            i = i + 1;
        }
        LobbyView {
            code: state.code.clone(),
            phase: match state.phase {
                RoomPhase::Lobby => text_of("lobby"),
                RoomPhase::Playing => text_of("playing"),
            },
            round_phase: if state.phase == RoomPhase::Lobby {
                String::new()
            } else {
                text_of(state.round_phase.wire_id())
            },
            round_number: state.round_number,
            min_players: state.min_players,
            max_players: state.max_players,
            player_count: state.player_count(),
            can_start: state.can_start(),
            mission_id: state.mission_id,
            mission_title: text_of(mission.title),
            mission_objective: text_of(mission.objective),
            mission_briefing: text_of(mission.briefing),
            game_day: state.game_day,
            game_hour: state.game_hour,
            active_user_id: match state.active_user_id {
                Some(id) => Some(id.0),
                None => None,
            },
            active_display_name,
            players,
            npcs,
            event_tokens,
            last_event: match &state.last_event {
                Some(e) => Some(e.clone()),
                None => None,
            },
            history,
            legal_actions: legal,
        }
    }
}

/// What the server sends over a room's socket.
#[derive(Debug, Clone, PartialEq, Eq)]
pub enum ServerMsg {
    Welcome { user_id: UserId, role: MemberRole },
    RoomState(RoomState),
    Lobby(LobbyView),
    DiceResult { kind: DiceKind, value: u8, by: UserId },
    LocationRolled { location: LocationId, by: UserId },
    CccResult { draw: CccDraw, by: UserId },
    TokenMoved { user_id: UserId, from: HexCoord, to: HexCoord },
    Error { code: String, message: String },
}

} // verus!
