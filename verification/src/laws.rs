//! Properties of the engine that span its operations: what the lobby admits, what a
//! room in the lobby refuses, that the actions offered to a member are accepted, that
//! steps are deterministic, and what every accepted step keeps.
use vstd::prelude::*;

use crate::actions::{Action, ActionModel};
use crate::ccc::{is_shuffled_deck, tens_cards, units_cards, CccDeck, TENS_SALT, UNITS_SALT};
use crate::engine::{
    action_views, add_player, legal_actions, hex_rolls, join_rejection, joined, try_add_player, legal_model, lemma_hex_rolls_found, moves_toward,
    can_move_spec, d6_fits, legal_fits, move_fits, moves_fit, ready_for_targeting, seat, stage_actions, step_spec, toward_target_spec, warmed, StepOutcome,
    ROLL_LIMIT,
};
use crate::error::DomainError;
use crate::hex::{lemma_bounded_distance_fits, HexCoord};
use crate::history::texts;
use crate::ids::{MemberRole, UserId};
use crate::lobby::RoomPhase;
use crate::npc::{npc_views, NpcKind};
use crate::room::{lemma_token_index, room_can_start, token_index, RoomState};
use crate::sector::{in_sector, lemma_sector_hex_bounded, sector_seq};
use crate::shuffle::{lemma_splitmix_shuffle_perm, splitmix64_spec};
use crate::token::{PlayerToken, TurnStage};

verus! {

proof fn lemma_moves_toward_member(hexes: Seq<HexCoord>, from: HexCoord, points: u8, target: HexCoord, a: ActionModel)
    requires
        moves_toward(hexes, from, points, target).contains(a),
    ensures
        a matches ActionModel::MoveToken { to } && hexes.contains(to) && toward_target_spec(from, to, points, target),
    decreases hexes.len(),
{
    if hexes.len() > 0 {
        let rest = moves_toward(hexes.drop_last(), from, points, target);
        if rest.contains(a) {
            lemma_moves_toward_member(hexes.drop_last(), from, points, target, a);
            let to = a->to;
            let k = choose|k: int| 0 <= k < hexes.drop_last().len() && hexes.drop_last()[k] == to;
            assert(hexes[k] == to);
        } else {
            assert(hexes[hexes.len() - 1] == hexes.last());
        }
    }
}

/// What an offered action may still run into once every check on who may act and when
/// has passed.
pub open spec fn unlucky(s: RoomState, user: UserId, a: Action, r: Result<StepOutcome, DomainError>) -> bool {
    r matches Err(e) && (e is InvalidDice || e is InvalidCcc || (a is RollD6Move && seat(s, user).target_hex is None))
}

proof fn lemma_offered_in_lobby(s: RoomState, user: UserId, role: MemberRole, a: Action, r: Result<StepOutcome, DomainError>)
    requires
        s.phase == RoomPhase::Lobby,
        legal_model(s, user, role).contains(a@),
        step_spec(s, user, role, a, r),
    ensures
        r is Ok,
{
    lemma_token_index(s.tokens@, user);
    let i = token_index(s.tokens@, user);
    let chat = ActionModel::Chat { text: Seq::empty() };
    let own = if i >= 0 {
        seq![ActionModel::SetReady { ready: !s.tokens@[i].ready }, chat]
    } else {
        Seq::<ActionModel>::empty()
    };
    let all = own.push(ActionModel::StartGame);
    if role == MemberRole::Gm && room_can_start(s) && a@ != ActionModel::StartGame {
        let k = choose|k: int| 0 <= k < all.len() && all[k] == a@;
        assert(own[k] == a@);
    }
}

proof fn lemma_offered_stage_action(s: RoomState, user: UserId, role: MemberRole, a: Action, r: Result<StepOutcome, DomainError>)
    requires
        s.phase == RoomPhase::Playing,
        token_index(s.tokens@, user) >= 0,
        s.active_user_id == Some(user),
        stage_actions(s.tokens@[token_index(s.tokens@, user)]).contains(a@),
        step_spec(s, user, role, a, r),
    ensures
        r is Ok || unlucky(s, user, a, r),
        s.ccc_deck.complete() ==> !(r matches Err(e) && e is InvalidCcc),
        targets_set(s) ==> !(r matches Err(e) && e is IllegalStage),
{
    lemma_token_index(s.tokens@, user);
    let t = s.tokens@[token_index(s.tokens@, user)];
    if s.ccc_deck.complete() {
        s.ccc_deck.lemma_draw_ccc_from_complete();
    }
    if t.travel_stage == TurnStage::NeedMove {
        lemma_moves_toward_member(sector_seq(), t.hex, t.move_points, t.target_hex->0, a@);
    }
}

/// Every action that the rules offer a member (`legal_actions`) is accepted by `step`,
/// except that a dice roll can still come out unusable, a card draw from a deck that
/// lost cards can, and a D6 roll needs a target hex. In a room whose deck is complete
/// and whose waiting tokens have targets, which the engine keeps so while playing,
/// only the dice can still refuse.
pub proof fn lemma_offered_actions_accepted(
    s: RoomState,
    user: UserId,
    role: MemberRole,
    a: Action,
    r: Result<StepOutcome, DomainError>,
)
    requires
        legal_model(s, user, role).contains(a@),
        step_spec(s, user, role, a, r),
    ensures
        r is Ok || unlucky(s, user, a, r),
        s.ccc_deck.complete() ==> !(r matches Err(e) && e is InvalidCcc),
        targets_set(s) ==> !(r matches Err(e) && e is IllegalStage),
{
    lemma_token_index(s.tokens@, user);
    let i = token_index(s.tokens@, user);
    if s.phase == RoomPhase::Lobby {
        lemma_offered_in_lobby(s, user, role, a, r);
    } else if i >= 0 {
        let chat = ActionModel::Chat { text: Seq::empty() };
        let stage = if s.active_user_id == Some(user) { stage_actions(s.tokens@[i]) } else { Seq::empty() };
        let own = stage.push(chat);
        let npc = ActionModel::SpawnNpc { name: "NPC"@, kind: NpcKind::Stalker };
        let k = if role == MemberRole::Gm {
            choose|k: int| 0 <= k < own.push(npc).len() && own.push(npc)[k] == a@
        } else {
            choose|k: int| 0 <= k < own.len() && own[k] == a@
        };
        if k < stage.len() {
            assert(stage[k] == a@);
            lemma_offered_stage_action(s, user, role, a, r);
        }
    }
}

/// In the lobby, the ready action offered to a seated member toggles: it carries the
/// opposite of the member's ready flag, and the flag the member already has is never
/// offered.
pub proof fn lemma_lobby_ready_toggles(s: RoomState, user: UserId, role: MemberRole, offered: Vec<Action>)
    requires
        call_ensures(legal_actions, (&s, user, role), offered),
        s.phase == RoomPhase::Lobby,
        token_index(s.tokens@, user) >= 0,
    ensures
        action_views(offered@).contains(ActionModel::SetReady { ready: !s.tokens@[token_index(s.tokens@, user)].ready }),
        !action_views(offered@).contains(ActionModel::SetReady { ready: s.tokens@[token_index(s.tokens@, user)].ready }),
{
    let i = token_index(s.tokens@, user);
    let v = action_views(offered@);
    assert(v[0] == ActionModel::SetReady { ready: !s.tokens@[i].ready });
    assert(!v.contains(ActionModel::SetReady { ready: s.tokens@[i].ready })) by {
        if v.contains(ActionModel::SetReady { ready: s.tokens@[i].ready }) {
            let k = choose|k: int| 0 <= k < v.len() && v[k] == ActionModel::SetReady { ready: s.tokens@[i].ready };
            assert(k == 0 || k == 1 || k == 2);
        }
    }
}

/// What `legal_actions` offers, action by action. The GM may start exactly when the
/// lobby holds players, between the minimum and the maximum, and all are ready. Every
/// seated member, and only a seated one, may chat. In the lobby a seated member is
/// offered the ready flag it does not have. While playing the GM may spawn an NPC,
/// and the member on turn is offered the roll or draw of its stage; an offered move
/// is, for the member on turn at the move stage, onto a sector hex within its points
/// that reaches the target or comes closer to it. Round actions are never offered.
pub proof fn lemma_legal_offers(s: RoomState, user: UserId, role: MemberRole, offered: Vec<Action>, b: bool, to: HexCoord)
    requires
        call_ensures(legal_actions, (&s, user, role), offered),
    ensures
        ({
            let v = action_views(offered@);
            let i = token_index(s.tokens@, user);
            let on_turn = s.phase == RoomPhase::Playing && i >= 0 && s.active_user_id == Some(user);
            let t = s.tokens@[i];
            &&& v.contains(ActionModel::StartGame) <==> (s.phase == RoomPhase::Lobby && role == MemberRole::Gm
                && s.tokens@.len() > 0 && s.min_players <= (s.tokens@.len() as u8) <= s.max_players
                && forall|j: int| 0 <= j < s.tokens@.len() ==> #[trigger] s.tokens@[j].ready)
            &&& v.contains(ActionModel::Chat { text: Seq::empty() }) <==> i >= 0
            &&& v.contains(ActionModel::SetReady { ready: b }) <==> (s.phase == RoomPhase::Lobby && i >= 0 && b == !t.ready)
            &&& v.contains(ActionModel::SpawnNpc { name: "NPC"@, kind: NpcKind::Stalker }) <==> (s.phase == RoomPhase::Playing
                && role == MemberRole::Gm)
            &&& v.contains(ActionModel::RollD20Location) <==> (on_turn && t.travel_stage == TurnStage::NeedLocation)
            &&& v.contains(ActionModel::DrawCcc) <==> (on_turn && t.travel_stage == TurnStage::NeedSector)
            &&& v.contains(ActionModel::RollD20Hex) <==> (on_turn && t.travel_stage == TurnStage::NeedHex)
            &&& v.contains(ActionModel::RollD6Move) <==> (on_turn && t.travel_stage == TurnStage::NeedD6)
            &&& v.contains(ActionModel::MoveToken { to }) ==> {
                &&& on_turn && t.travel_stage == TurnStage::NeedMove && t.target_hex is Some
                &&& in_sector(to)
                &&& 0 < t.hex.spec_distance(to) <= t.move_points
                &&& (to == t.target_hex->0 || to.spec_distance(t.target_hex->0) < t.hex.spec_distance(t.target_hex->0))
            }
            &&& !v.contains(ActionModel::RollExitZone) && !v.contains(ActionModel::RollExploreD6)
            &&& !v.contains(ActionModel::DrawEvent) && !v.contains(ActionModel::ReturnToBase)
            &&& !v.contains(ActionModel::FinishBase) && !v.contains(ActionModel::StartMission { mission_id: 1 })
        }),
{
    broadcast use vstd::seq_lib::group_seq_properties;
    lemma_token_index(s.tokens@, user);
    let v = action_views(offered@);
    let i = token_index(s.tokens@, user);
    assert(v == legal_model(s, user, role));
    if i >= 0 && s.tokens@[i].travel_stage == TurnStage::NeedMove && s.tokens@[i].move_points > 0 && s.tokens@[i].target_hex is Some {
        let t = s.tokens@[i];
        let m = moves_toward(sector_seq(), t.hex, t.move_points, t.target_hex->0);
        assert forall|x: ActionModel| #[trigger] m.contains(x) implies x is MoveToken by {
            lemma_moves_toward_member(sector_seq(), t.hex, t.move_points, t.target_hex->0, x);
        }
        if m.contains(ActionModel::MoveToken { to }) {
            lemma_moves_toward_member(sector_seq(), t.hex, t.move_points, t.target_hex->0, ActionModel::MoveToken { to });
        }
    }
}

/// While the room is in the lobby, every gameplay action is refused as `StillInLobby`.
pub proof fn lemma_gameplay_refused_in_lobby(
    s: RoomState,
    user: UserId,
    role: MemberRole,
    a: Action,
    r: Result<StepOutcome, DomainError>,
)
    requires
        s.phase == RoomPhase::Lobby,
        a is StartMission || a is RollD20Location || a is DrawCcc || a is RollD20Hex || a is RollD6Move
            || a is MoveToken || a is SpawnNpc,
        step_spec(s, user, role, a, r),
    ensures
        r == Err::<StepOutcome, DomainError>(DomainError::StillInLobby),
{
}

/// The GM's start of the game is accepted exactly when the lobby can start.
pub proof fn lemma_start_iff_ready(s: RoomState, user: UserId, r: Result<StepOutcome, DomainError>)
    requires
        step_spec(s, user, MemberRole::Gm, Action::StartGame, r),
    ensures
        r is Ok <==> room_can_start(s),
{
}

/// A new user cannot join a lobby whose seats are all taken: `try_add_player` answers
/// `LobbyFull`.
pub proof fn lemma_full_lobby_refuses(s: RoomState, user: UserId)
    requires
        s.phase == RoomPhase::Lobby,
        s.tokens@.len() == s.max_players,
        token_index(s.tokens@, user) < 0,
    ensures
        join_rejection(s, user) == Some(DomainError::LobbyFull { max: s.max_players }),
{
}

/// Joins never seat more players than the room allows.
pub proof fn lemma_join_keeps_capacity(s: RoomState, token: PlayerToken, n: RoomState)
    requires
        s.tokens@.len() <= s.max_players,
        join_rejection(s, token.user_id) is None,
        joined(s, token, n),
    ensures
        n.tokens@.len() <= s.max_players,
        n.max_players == s.max_players,
{
}

/// `add_player` is `try_add_player` for a joinable room: where `try_add_player`
/// accepts, `add_player` gives the same room; `try_add_player` refuses exactly the
/// rooms `add_player` does not take (its `requires`).
pub proof fn lemma_add_player_agrees(s: RoomState, token: PlayerToken, r: Result<RoomState, DomainError>, n: RoomState)
    requires
        call_ensures(try_add_player, (s, token), r),
        call_ensures(add_player, (s, token), n),
    ensures
        r matches Ok(m) ==> same_room(m, n),
        r is Err <==> join_rejection(s, token.user_id) is Some,
{
}

/// Joining twice is joining once: the second join of the same token changes nothing.
pub proof fn lemma_join_idempotent(s: RoomState, token: PlayerToken, n1: RoomState, n2: RoomState)
    requires
        joined(s, token, n1),
        joined(n1, token, n2),
    ensures
        n2 == n1,
{
    lemma_token_index(s.tokens@, token.user_id);
    lemma_token_index(n1.tokens@, token.user_id);
    if token_index(s.tokens@, token.user_id) < 0 {
        assert(n1.tokens@[s.tokens@.len() as int] == token);
    }
}

/// Every seat's position and target lie in the bounded coordinate range.
pub open spec fn seats_bounded(s: RoomState) -> bool {
    &&& forall|i: int| 0 <= i < s.tokens@.len() ==> #[trigger] s.tokens@[i].hex.is_bounded()
    &&& forall|i: int| 0 <= i < s.tokens@.len() ==> (#[trigger] s.tokens@[i].target_hex matches Some(h) ==> h.is_bounded())
}

proof fn lemma_update_bounded(ts: Seq<PlayerToken>, i: int, t: PlayerToken)
    requires
        0 <= i < ts.len(),
        forall|j: int| 0 <= j < ts.len() ==> #[trigger] ts[j].hex.is_bounded(),
        forall|j: int| 0 <= j < ts.len() ==> (#[trigger] ts[j].target_hex matches Some(h) ==> h.is_bounded()),
        t.hex.is_bounded(),
        t.target_hex matches Some(h) ==> h.is_bounded(),
    ensures
        forall|j: int| 0 <= j < ts.update(i, t).len() ==> #[trigger] ts.update(i, t)[j].hex.is_bounded(),
        forall|j: int| 0 <= j < ts.update(i, t).len() ==> (#[trigger] ts.update(i, t)[j].target_hex matches Some(h) ==> h.is_bounded()),
{
    assert forall|j: int| 0 <= j < ts.update(i, t).len() implies #[trigger] ts.update(i, t)[j].hex.is_bounded() by {
        if j != i {
            assert(ts.update(i, t)[j] == ts[j]);
        }
    }
    assert forall|j: int| 0 <= j < ts.update(i, t).len() implies (#[trigger] ts.update(i, t)[j].target_hex matches Some(h) ==> h.is_bounded()) by {
        if j != i {
            assert(ts.update(i, t)[j] == ts[j]);
        }
    }
}

/// Moves looked for between bounded hexes never leave `i32`.
proof fn lemma_bounded_moves_fit(from: HexCoord, points: u8, target: HexCoord)
    requires
        from.is_bounded(),
        target.is_bounded(),
    ensures
        moves_fit(from, points, target),
{
    assert forall|k: int| 0 <= k < 19 implies {
        &&& from.distance_fits(#[trigger] sector_seq()[k])
        &&& can_move_spec(from, sector_seq()[k], points) ==> sector_seq()[k].distance_fits(target)
            && from.distance_fits(target)
    } by {
        assert(sector_seq().contains(sector_seq()[k]));
        lemma_sector_hex_bounded(sector_seq()[k]);
        lemma_bounded_distance_fits(from, sector_seq()[k]);
        lemma_bounded_distance_fits(sector_seq()[k], target);
        lemma_bounded_distance_fits(from, target);
    }
}

/// A room whose seats are all bounded (as every room the engine makes is) meets
/// what `legal_actions` asks for any member, and what `step` asks of a D6 roll or of
/// a move onto any hex, the clock aside.
pub proof fn lemma_bounded_seats_fit(s: RoomState, user: UserId, to: HexCoord)
    requires
        seats_bounded(s),
    ensures
        legal_fits(s, user),
        d6_fits(s, user),
        move_fits(s, user, to),
{
    lemma_token_index(s.tokens@, user);
    let i = token_index(s.tokens@, user);
    if i >= 0 {
        let t = s.tokens@[i];
        if t.target_hex is Some {
            lemma_bounded_moves_fit(t.hex, t.move_points, t.target_hex->0);
            lemma_bounded_moves_fit(t.hex, 6, t.target_hex->0);
            if in_sector(to) {
                lemma_sector_hex_bounded(to);
                lemma_bounded_distance_fits(t.hex, to);
                lemma_bounded_distance_fits(t.hex, t.target_hex->0);
                lemma_bounded_distance_fits(to, t.target_hex->0);
            }
        }
    }
}

/// An accepted step keeps every seat on bounded coordinates: tokens only move onto
/// sector hexes, and every target is a sector hex.
pub proof fn lemma_step_keeps_seats_bounded(
    s: RoomState,
    user: UserId,
    role: MemberRole,
    a: Action,
    o: StepOutcome,
)
    requires
        seats_bounded(s),
        step_spec(s, user, role, a, Ok(o)),
    ensures
        seats_bounded(o.state),
{
    lemma_token_index(s.tokens@, user);
    let i = token_index(s.tokens@, user);
    let ts = s.tokens@;
    let n = o.state;
    match a {
        Action::StartGame => {
            assert forall|j: int| 0 <= j < n.tokens@.len() implies #[trigger] n.tokens@[j].hex.is_bounded() by {
                assert(n.tokens@[j] == ready_for_targeting(ts[j]));
            }
        },
        Action::RollD20Hex => {
            let (v, _f) = hex_rolls(warmed(s).0, warmed(s).1, ROLL_LIMIT as nat);
            lemma_hex_rolls_found(warmed(s).0, warmed(s).1, ROLL_LIMIT as nat);
            assert(in_sector(sector_seq()[v - 1]));
            lemma_sector_hex_bounded(sector_seq()[v - 1]);
            lemma_update_bounded(ts, i, n.tokens@[i]);
            assert(n.tokens@ == ts.update(i, n.tokens@[i]));
        },
        Action::RollD6Move | Action::RollD20Location | Action::DrawCcc | Action::SetReady { .. } => {
            if i >= 0 {
                lemma_update_bounded(ts, i, n.tokens@[i]);
                assert(n.tokens@ == ts.update(i, n.tokens@[i]));
            }
        },
        Action::MoveToken { to } => {
            lemma_sector_hex_bounded(to);
            lemma_update_bounded(ts, i, n.tokens@[i]);
            assert(n.tokens@ == ts.update(i, n.tokens@[i]));
        },
        _ => {},
    }
}

proof fn lemma_shuffled_complete(d: CccDeck, seed: u64)
    requires
        is_shuffled_deck(d, seed),
    ensures
        d.complete(),
{
    lemma_splitmix_shuffle_perm(tens_cards(), splitmix64_spec(seed ^ TENS_SALT));
    lemma_splitmix_shuffle_perm(units_cards(), splitmix64_spec(splitmix64_spec(seed ^ TENS_SALT) ^ UNITS_SALT));
    assert(d.tens@ + d.tens_discard@ =~= d.tens@);
    assert(d.units@ + d.units_discard@ =~= d.units@);
}

/// While a room plays, its CCC deck holds every card: the start shuffles a full deck,
/// and a draw keeps the cards between draw piles and discards.
pub proof fn lemma_step_keeps_deck_complete(
    s: RoomState,
    user: UserId,
    role: MemberRole,
    a: Action,
    o: StepOutcome,
)
    requires
        s.phase == RoomPhase::Playing ==> s.ccc_deck.complete(),
        step_spec(s, user, role, a, Ok(o)),
    ensures
        o.state.phase == RoomPhase::Playing ==> o.state.ccc_deck.complete(),
{
    match a {
        Action::StartGame => lemma_shuffled_complete(o.state.ccc_deck, s.rng_seed),
        Action::DrawCcc => s.ccc_deck.lemma_draw_ccc_from_complete(),
        _ => {},
    }
}

/// A token waiting to roll its D6 or to move has a target hex.
pub open spec fn targets_set(s: RoomState) -> bool {
    forall|i: int| 0 <= i < s.tokens@.len() && (#[trigger] s.tokens@[i].travel_stage == TurnStage::NeedD6
        || s.tokens@[i].travel_stage == TurnStage::NeedMove) ==> s.tokens@[i].target_hex is Some
}

proof fn lemma_update_targets(ts: Seq<PlayerToken>, i: int, t: PlayerToken)
    requires
        0 <= i < ts.len(),
        forall|j: int| 0 <= j < ts.len() && (#[trigger] ts[j].travel_stage == TurnStage::NeedD6
            || ts[j].travel_stage == TurnStage::NeedMove) ==> ts[j].target_hex is Some,
        (t.travel_stage == TurnStage::NeedD6 || t.travel_stage == TurnStage::NeedMove) ==> t.target_hex is Some,
    ensures
        forall|j: int| 0 <= j < ts.update(i, t).len() && (#[trigger] ts.update(i, t)[j].travel_stage == TurnStage::NeedD6
            || ts.update(i, t)[j].travel_stage == TurnStage::NeedMove) ==> ts.update(i, t)[j].target_hex is Some,
{
    assert forall|j: int| 0 <= j < ts.update(i, t).len() && (#[trigger] ts.update(i, t)[j].travel_stage == TurnStage::NeedD6
        || ts.update(i, t)[j].travel_stage == TurnStage::NeedMove) implies ts.update(i, t)[j].target_hex is Some by {
        if j != i {
            assert(ts.update(i, t)[j] == ts[j]);
        }
    }
}

/// An accepted step keeps targets set: a token only waits for its D6 or moves once a
/// target hex was rolled.
pub proof fn lemma_step_keeps_targets_set(
    s: RoomState,
    user: UserId,
    role: MemberRole,
    a: Action,
    o: StepOutcome,
)
    requires
        targets_set(s),
        step_spec(s, user, role, a, Ok(o)),
    ensures
        targets_set(o.state),
{
    lemma_token_index(s.tokens@, user);
    let i = token_index(s.tokens@, user);
    let ts = s.tokens@;
    let n = o.state;
    match a {
        Action::StartGame => {
            assert forall|j: int| 0 <= j < n.tokens@.len() && (#[trigger] n.tokens@[j].travel_stage == TurnStage::NeedD6
                || n.tokens@[j].travel_stage == TurnStage::NeedMove) implies n.tokens@[j].target_hex is Some by {
                assert(n.tokens@[j] == ready_for_targeting(ts[j]));
            }
        },
        Action::RollD20Hex | Action::RollD6Move | Action::RollD20Location | Action::DrawCcc
        | Action::SetReady { .. } | Action::MoveToken { .. } => {
            if i >= 0 {
                lemma_update_targets(ts, i, n.tokens@[i]);
                assert(n.tokens@ == ts.update(i, n.tokens@[i]));
            }
        },
        _ => {},
    }
}

/// Two rooms that hold the same values, texts and lists compared by their contents.
pub open spec fn same_room(a: RoomState, b: RoomState) -> bool {
    &&& a.room_id == b.room_id
    &&& a.code@ == b.code@
    &&& a.gm_user_id == b.gm_user_id
    &&& a.phase == b.phase
    &&& a.mission_id == b.mission_id
    &&& a.tokens@ == b.tokens@
    &&& a.active_user_id == b.active_user_id
    &&& texts(a.history@) == texts(b.history@)
    &&& a.rng_seed == b.rng_seed
    &&& a.min_players == b.min_players
    &&& a.max_players == b.max_players
    &&& a.game_day == b.game_day
    &&& a.game_hour == b.game_hour
    &&& a.play_started_unix == b.play_started_unix
    &&& a.ccc_deck.tens@ == b.ccc_deck.tens@
    &&& a.ccc_deck.units@ == b.ccc_deck.units@
    &&& a.ccc_deck.tens_discard@ == b.ccc_deck.tens_discard@
    &&& a.ccc_deck.units_discard@ == b.ccc_deck.units_discard@
    &&& a.ccc_deck.shuffle_seed == b.ccc_deck.shuffle_seed
    &&& npc_views(a.npcs@) == npc_views(b.npcs@)
    &&& a.round_phase == b.round_phase
    &&& a.round_number == b.round_number
    &&& a.event_tokens@ == b.event_tokens@
    &&& a.last_event == b.last_event
    &&& a.event_deck.draw@ == b.event_deck.draw@
    &&& a.event_deck.discard@ == b.event_deck.discard@
    &&& a.next_event_token_id == b.next_event_token_id
}

/// Two step results that agree: the same refusal, or rooms and entries with the same
/// contents.
pub open spec fn same_outcome(x: Result<StepOutcome, DomainError>, y: Result<StepOutcome, DomainError>) -> bool {
    match (x, y) {
        (Err(a), Err(b)) => a == b,
        (Ok(a), Ok(b)) => same_room(a.state, b.state) && texts(a.events@) == texts(b.events@),
        _ => false,
    }
}

proof fn lemma_same_setready(
    s: RoomState,
    user: UserId,
    role: MemberRole,
    a: Action,
    r1: Result<StepOutcome, DomainError>,
    r2: Result<StepOutcome, DomainError>,
)
    requires
        a is SetReady,
        step_spec(s, user, role, a, r1),
        step_spec(s, user, role, a, r2),
    ensures
        same_outcome(r1, r2),
{
    if let (Ok(o1), Ok(o2)) = (r1, r2) {
        lemma_same_lists(o1.state, o2.state);
    }
}

#[verifier::rlimit(40)]
proof fn lemma_same_startgame(
    s: RoomState,
    user: UserId,
    role: MemberRole,
    a: Action,
    r1: Result<StepOutcome, DomainError>,
    r2: Result<StepOutcome, DomainError>,
)
    requires
        a is StartGame,
        step_spec(s, user, role, a, r1),
        step_spec(s, user, role, a, r2),
    ensures
        same_outcome(r1, r2),
{
    if let (Ok(o1), Ok(o2)) = (r1, r2) {
        lemma_same_lists(o1.state, o2.state);
        let n1 = o1.state;
        let n2 = o2.state;
        assert(n1.npcs@ =~= n2.npcs@);
        assert(n1.tokens@ =~= n2.tokens@);
        assert(n1.ccc_deck.tens_discard@ =~= n2.ccc_deck.tens_discard@);
        assert(n1.ccc_deck.units_discard@ =~= n2.ccc_deck.units_discard@);
    }
}

proof fn lemma_same_startmission(
    s: RoomState,
    user: UserId,
    role: MemberRole,
    a: Action,
    r1: Result<StepOutcome, DomainError>,
    r2: Result<StepOutcome, DomainError>,
)
    requires
        a is StartMission,
        step_spec(s, user, role, a, r1),
        step_spec(s, user, role, a, r2),
    ensures
        same_outcome(r1, r2),
{
    if let (Ok(o1), Ok(o2)) = (r1, r2) {
        lemma_same_lists(o1.state, o2.state);
    }
}

proof fn lemma_same_rolld20location(
    s: RoomState,
    user: UserId,
    role: MemberRole,
    a: Action,
    r1: Result<StepOutcome, DomainError>,
    r2: Result<StepOutcome, DomainError>,
)
    requires
        a is RollD20Location,
        step_spec(s, user, role, a, r1),
        step_spec(s, user, role, a, r2),
    ensures
        same_outcome(r1, r2),
{
    if let (Ok(o1), Ok(o2)) = (r1, r2) {
        lemma_same_lists(o1.state, o2.state);
    }
}

proof fn lemma_same_drawccc(
    s: RoomState,
    user: UserId,
    role: MemberRole,
    a: Action,
    r1: Result<StepOutcome, DomainError>,
    r2: Result<StepOutcome, DomainError>,
)
    requires
        a is DrawCcc,
        step_spec(s, user, role, a, r1),
        step_spec(s, user, role, a, r2),
    ensures
        same_outcome(r1, r2),
{
    if let (Ok(o1), Ok(o2)) = (r1, r2) {
        lemma_same_lists(o1.state, o2.state);
    }
}

proof fn lemma_same_rolld20hex(
    s: RoomState,
    user: UserId,
    role: MemberRole,
    a: Action,
    r1: Result<StepOutcome, DomainError>,
    r2: Result<StepOutcome, DomainError>,
)
    requires
        a is RollD20Hex,
        step_spec(s, user, role, a, r1),
        step_spec(s, user, role, a, r2),
    ensures
        same_outcome(r1, r2),
{
    if let (Ok(o1), Ok(o2)) = (r1, r2) {
        lemma_same_lists(o1.state, o2.state);
    }
}

proof fn lemma_same_rolld6move(
    s: RoomState,
    user: UserId,
    role: MemberRole,
    a: Action,
    r1: Result<StepOutcome, DomainError>,
    r2: Result<StepOutcome, DomainError>,
)
    requires
        a is RollD6Move,
        step_spec(s, user, role, a, r1),
        step_spec(s, user, role, a, r2),
    ensures
        same_outcome(r1, r2),
{
    if let (Ok(o1), Ok(o2)) = (r1, r2) {
        lemma_same_lists(o1.state, o2.state);
    }
}

proof fn lemma_same_movetoken(
    s: RoomState,
    user: UserId,
    role: MemberRole,
    a: Action,
    r1: Result<StepOutcome, DomainError>,
    r2: Result<StepOutcome, DomainError>,
)
    requires
        a is MoveToken,
        step_spec(s, user, role, a, r1),
        step_spec(s, user, role, a, r2),
    ensures
        same_outcome(r1, r2),
{
    if let (Ok(o1), Ok(o2)) = (r1, r2) {
        lemma_same_lists(o1.state, o2.state);
    }
}

proof fn lemma_same_chat(
    s: RoomState,
    user: UserId,
    role: MemberRole,
    a: Action,
    r1: Result<StepOutcome, DomainError>,
    r2: Result<StepOutcome, DomainError>,
)
    requires
        a is Chat,
        step_spec(s, user, role, a, r1),
        step_spec(s, user, role, a, r2),
    ensures
        same_outcome(r1, r2),
{
    if let (Ok(o1), Ok(o2)) = (r1, r2) {
        lemma_same_lists(o1.state, o2.state);
    }
}

proof fn lemma_same_lists(n1: RoomState, n2: RoomState)
    ensures
        texts(n1.history@).len() == n1.history@.len(),
        texts(n2.history@).len() == n2.history@.len(),
{
}

proof fn lemma_same_spawnnpc(
    s: RoomState,
    user: UserId,
    role: MemberRole,
    a: Action,
    r1: Result<StepOutcome, DomainError>,
    r2: Result<StepOutcome, DomainError>,
)
    requires
        a is SpawnNpc,
        step_spec(s, user, role, a, r1),
        step_spec(s, user, role, a, r2),
    ensures
        same_outcome(r1, r2),
{
    if let (Ok(o1), Ok(o2)) = (r1, r2) {
        lemma_same_lists(o1.state, o2.state);
        let (n1, n2) = (o1.state.npcs@, o2.state.npcs@);
        assert(n1 =~= s.npcs@.push(n1.last()));
        assert(n2 =~= s.npcs@.push(n2.last()));
        assert(npc_views(n1) =~= npc_views(n2));
    }
}

/// The rules are deterministic: the same room, member, role and action always give
/// the same result, dice and NPC ids included (they come from the room's seed).
pub proof fn lemma_step_deterministic(
    s: RoomState,
    user: UserId,
    role: MemberRole,
    a: Action,
    r1: Result<StepOutcome, DomainError>,
    r2: Result<StepOutcome, DomainError>,
)
    requires
        step_spec(s, user, role, a, r1),
        step_spec(s, user, role, a, r2),
    ensures
        same_outcome(r1, r2),
{
    match a {
        Action::SetReady { .. } => lemma_same_setready(s, user, role, a, r1, r2),
        Action::StartGame => lemma_same_startgame(s, user, role, a, r1, r2),
        Action::StartMission { .. } => lemma_same_startmission(s, user, role, a, r1, r2),
        Action::RollD20Location => lemma_same_rolld20location(s, user, role, a, r1, r2),
        Action::DrawCcc => lemma_same_drawccc(s, user, role, a, r1, r2),
        Action::RollD20Hex => lemma_same_rolld20hex(s, user, role, a, r1, r2),
        Action::RollD6Move => lemma_same_rolld6move(s, user, role, a, r1, r2),
        Action::MoveToken { .. } => lemma_same_movetoken(s, user, role, a, r1, r2),
        Action::Chat { .. } => lemma_same_chat(s, user, role, a, r1, r2),
        Action::SpawnNpc { .. } => lemma_same_spawnnpc(s, user, role, a, r1, r2),
        _ => {},
    }
}

} // verus!
