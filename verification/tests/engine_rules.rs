use nnk::actions::Action;
use nnk::engine::{
    add_player, can_move, can_move_toward_target, init, legal_actions, step, try_add_player,
};
use nnk::error::DomainError;
use nnk::hex::HexCoord;
use nnk::ids::{MemberRole, RoomId, UserId};
use nnk::lobby::RoomPhase;
use nnk::location::LocationId;
use nnk::mission::MissionDef;
use nnk::npc::NpcKind;
use nnk::room::RoomState;
use nnk::sector::{is_sector_hex, sector_hexes};
use nnk::token::{PlayerToken, TurnStage};

fn setup() -> (RoomState, UserId) {
    let gm = UserId::new();
    let state = init(RoomId::new(), "TEST01".to_string(), PlayerToken::new(gm, "GM"), 99);
    (state, gm)
}

fn fill_lobby_ready(mut state: RoomState, gm: UserId) -> RoomState {
    while state.player_count() < 4 {
        let p = UserId::new();
        let name = format!("p{}", state.player_count());
        state = try_add_player(state, PlayerToken::new(p, &name)).unwrap();
    }
    for t in &mut state.tokens {
        t.ready = true;
    }
    assert!(state.find_token(gm).unwrap().ready);
    assert!(state.can_start());
    state
}

fn start_playing(state: RoomState, gm: UserId) -> RoomState {
    let state = fill_lobby_ready(state, gm);
    step(state, gm, MemberRole::Gm, Action::StartGame).unwrap().state
}

fn advance_to_hex_stage(state: RoomState, user_id: UserId) -> RoomState {
    let state = step(state, user_id, MemberRole::Player, Action::RollD20Location).unwrap().state;
    step(state, user_id, MemberRole::Player, Action::DrawCcc).unwrap().state
}

fn advance_to_d6_stage(state: RoomState, user_id: UserId) -> RoomState {
    let state = advance_to_hex_stage(state, user_id);
    step(state, user_id, MemberRole::Player, Action::RollD20Hex).unwrap().state
}

#[test]
fn init_history() {
    let (s, _) = setup();
    assert_eq!(s.history, vec!["room_created".to_string()]);
    assert_eq!(s.phase, RoomPhase::Lobby);
}

#[test]
fn lobby_rejects_sixth() {
    let (mut s, _) = setup();
    for i in 0..4 {
        s = try_add_player(s, PlayerToken::new(UserId::new(), &format!("p{i}"))).unwrap();
    }
    assert!(s.is_full());
    let err = try_add_player(s, PlayerToken::new(UserId::new(), "overflow")).unwrap_err();
    assert_eq!(err, DomainError::LobbyFull { max: 5 });
}

#[test]
fn start_requires_four_ready() {
    let (s, gm) = setup();
    let err = step(s.clone(), gm, MemberRole::Gm, Action::StartGame).unwrap_err();
    assert!(matches!(err, DomainError::LobbySize { .. }));

    let mut s = try_add_player(s, PlayerToken::new(UserId::new(), "a")).unwrap();
    s = try_add_player(s, PlayerToken::new(UserId::new(), "b")).unwrap();
    s = try_add_player(s, PlayerToken::new(UserId::new(), "c")).unwrap();
    let err = step(s.clone(), gm, MemberRole::Gm, Action::StartGame).unwrap_err();
    assert_eq!(err, DomainError::LobbyNotReady);

    let s = fill_lobby_ready(s, gm);
    let out = step(s, gm, MemberRole::Gm, Action::StartGame).unwrap();
    assert_eq!(out.state.phase, RoomPhase::Playing);
}

#[test]
fn gameplay_blocked_in_lobby() {
    let (s, gm) = setup();
    let err = step(s, gm, MemberRole::Player, Action::RollD6Move).unwrap_err();
    assert_eq!(err, DomainError::StillInLobby);
}

#[test]
fn cannot_draw_ccc_before_location() {
    let (s, gm) = setup();
    let s = start_playing(s, gm);
    let err = step(s, gm, MemberRole::Player, Action::DrawCcc).unwrap_err();
    assert!(matches!(
        err,
        DomainError::IllegalStage { expected: "roll_d20_location", got: "draw_ccc" }
    ));
}

#[test]
fn cannot_roll_d20_hex_before_sector() {
    let (s, gm) = setup();
    let s = start_playing(s, gm);
    let s = step(s, gm, MemberRole::Player, Action::RollD20Location).unwrap().state;
    let err = step(s, gm, MemberRole::Player, Action::RollD20Hex).unwrap_err();
    assert!(matches!(
        err,
        DomainError::IllegalStage { expected: "draw_ccc", got: "roll_d20_hex" }
    ));
}

#[test]
fn cannot_roll_d6_before_hex() {
    let (s, gm) = setup();
    let s = start_playing(s, gm);
    let s = advance_to_hex_stage(s, gm);
    let err = step(s, gm, MemberRole::Player, Action::RollD6Move).unwrap_err();
    assert!(matches!(
        err,
        DomainError::IllegalStage { expected: "roll_d20_hex", got: "roll_d6_move" }
    ));
}

#[test]
fn set_ready_and_start_five() {
    let (mut s, gm) = setup();
    for i in 0..4 {
        s = try_add_player(s, PlayerToken::new(UserId::new(), &format!("p{i}"))).unwrap();
    }
    for t in s.tokens.clone() {
        s = step(s, t.user_id, MemberRole::Player, Action::SetReady { ready: true }).unwrap().state;
    }
    assert!(s.can_start());
    assert_eq!(s.player_count(), 5);
    let out = step(s, gm, MemberRole::Gm, Action::StartGame).unwrap();
    assert_eq!(out.state.phase, RoomPhase::Playing);
}

#[test]
fn gm_starts_mission_only_when_playing() {
    let (s, gm) = setup();
    let s = start_playing(s, gm);
    let out = step(s.clone(), gm, MemberRole::Gm, Action::StartMission { mission_id: 3 }).unwrap();
    assert_eq!(out.state.mission_id, 3);
    assert!(out.state.history.last().unwrap().contains(MissionDef::get(3).unwrap().title));
    let err = step(s.clone(), gm, MemberRole::Gm, Action::StartMission { mission_id: 0 }).unwrap_err();
    assert_eq!(err, DomainError::InvalidMissionId(0));
    let err = step(s, gm, MemberRole::Gm, Action::StartMission { mission_id: 11 }).unwrap_err();
    assert_eq!(err, DomainError::InvalidMissionId(11));
}

#[test]
fn player_cannot_start_game() {
    let (s, gm) = setup();
    let s = fill_lobby_ready(s, gm);
    let err = step(s, gm, MemberRole::Player, Action::StartGame).unwrap_err();
    assert_eq!(err, DomainError::Forbidden("only GM can start the game"));
}

#[test]
fn illegal_move_keeps_state() {
    let (s, gm) = setup();
    let mut s = start_playing(s, gm);
    let token = s.find_token_mut(gm).unwrap();
    token.travel_stage = TurnStage::NeedMove;
    token.move_points = 6;
    token.hex = HexCoord::zero();
    let before = s.clone();
    let err = step(s, gm, MemberRole::Player, Action::MoveToken { to: HexCoord::new(5, 0) }).unwrap_err();
    assert!(matches!(err, DomainError::IllegalMove { .. }));
    assert_eq!(before.tokens[0].hex, HexCoord::zero());
}

#[test]
fn d6_then_move() {
    let (s, gm) = setup();
    let s = start_playing(s, gm);
    let s = advance_to_d6_stage(s, gm);
    let out = step(s, gm, MemberRole::Player, Action::RollD6Move).unwrap();
    let points = out.state.tokens[0].move_points;
    assert!((1..=6).contains(&points));
    let from = out.state.tokens[0].hex;
    let target = out.state.tokens[0].target_hex.unwrap();
    let to = sector_hexes()
        .into_iter()
        .find(|to| can_move_toward_target(from, *to, points, target))
        .unwrap();
    let reaches_target = to == target;
    let spent = from.distance(to) as u8;
    let out = step(out.state, gm, MemberRole::Player, Action::MoveToken { to }).unwrap();
    assert_eq!(out.state.tokens[0].hex, to);
    if reaches_target {
        assert_eq!(out.state.tokens[0].move_points, 0);
        assert_eq!(out.state.tokens[0].target_hex, None);
        assert_ne!(out.state.active_user_id, Some(gm));
    } else {
        assert_eq!(out.state.tokens[0].move_points, points - spent);
        assert_eq!(out.state.tokens[0].target_hex, Some(target));
        if points == spent {
            assert_eq!(out.state.tokens[0].travel_stage, TurnStage::NeedD6);
        } else {
            assert_eq!(out.state.tokens[0].travel_stage, TurnStage::NeedMove);
        }
        assert_eq!(out.state.active_user_id, Some(gm));
    }
}

#[test]
fn cannot_oscillate_between_equal_distance_hexes() {
    let (s, gm) = setup();
    let mut s = start_playing(s, gm);
    let token = s.find_token_mut(gm).unwrap();
    token.travel_stage = TurnStage::NeedMove;
    token.hex = HexCoord::new(1, 0);
    token.target_hex = Some(HexCoord::new(0, 0));
    token.move_points = 1;
    let err = step(s, gm, MemberRole::Player, Action::MoveToken { to: HexCoord::new(0, 1) }).unwrap_err();
    assert_eq!(err, DomainError::IllegalMove { distance: 1, points: 1 });
}

#[test]
fn multi_step_od_spend_keeps_need_move_when_remaining_gt_zero() {
    let (s, gm) = setup();
    let mut s = start_playing(s, gm);
    let token = s.find_token_mut(gm).unwrap();
    token.travel_stage = TurnStage::NeedMove;
    token.hex = HexCoord::new(0, -2);
    token.target_hex = Some(HexCoord::new(0, 0));
    token.move_points = 2;

    let out = step(s, gm, MemberRole::Player, Action::MoveToken { to: HexCoord::new(0, -1) }).unwrap();
    assert_eq!(out.state.tokens[0].hex, HexCoord::new(0, -1));
    assert_eq!(out.state.tokens[0].move_points, 1);
    assert_eq!(out.state.tokens[0].travel_stage, TurnStage::NeedMove);
    assert_eq!(out.state.active_user_id, Some(gm));

    let out = step(out.state, gm, MemberRole::Player, Action::MoveToken { to: HexCoord::new(0, 0) }).unwrap();
    assert_eq!(out.state.tokens[0].hex, HexCoord::new(0, 0));
    assert_eq!(out.state.tokens[0].move_points, 0);
    assert_eq!(out.state.tokens[0].target_hex, None);
    assert_eq!(out.state.tokens[0].travel_stage, TurnStage::NeedLocation);
    assert_ne!(out.state.active_user_id, Some(gm));
}

#[test]
fn location_and_ccc() {
    let (s, gm) = setup();
    let s = start_playing(s, gm);
    let out = step(s, gm, MemberRole::Player, Action::RollD20Location).unwrap();
    assert!(out.state.tokens[0].location.is_some());
    let out = step(out.state, gm, MemberRole::Player, Action::DrawCcc).unwrap();
    let sector = out.state.tokens[0].sector.unwrap();
    assert!((1..=100).contains(&sector));
    assert!(out.state.tokens[0].ccc_tens.is_some());
    assert!(out.state.tokens[0].ccc_units.is_some());
    assert_eq!(out.state.ccc_deck.tens.len(), 9);
    assert_eq!(out.state.ccc_deck.units.len(), 9);
    let last = out.state.history.last().unwrap();
    assert!(last.starts_with("ccc:"));
    assert_eq!(last.split(':').count(), 5);
}

#[test]
fn d20_hex_sets_target_without_moving_current_hex() {
    let (s, gm) = setup();
    let s = start_playing(s, gm);
    let s = advance_to_hex_stage(s, gm);
    let current = s.tokens[0].hex;
    let out = step(s, gm, MemberRole::Player, Action::RollD20Hex).unwrap();
    assert_eq!(out.state.tokens[0].hex, current);
    assert!(out.state.tokens[0].target_hex.is_some());
    assert_eq!(out.state.tokens[0].travel_stage, TurnStage::NeedD6);
}

#[test]
fn unknown_player() {
    let (s, _) = setup();
    let err = step(s, UserId::new(), MemberRole::Player, Action::SetReady { ready: true }).unwrap_err();
    assert_eq!(err, DomainError::UnknownPlayer);
}

#[test]
fn add_player_idempotent() {
    let (s, _) = setup();
    let p = UserId::new();
    let s = try_add_player(s, PlayerToken::new(p, "A")).unwrap();
    let s2 = try_add_player(s.clone(), PlayerToken::new(p, "A")).unwrap();
    assert_eq!(s.tokens.len(), s2.tokens.len());
}

#[test]
fn legal_lobby_vs_playing() {
    let (s, gm) = setup();
    let acts = legal_actions(&s, gm, MemberRole::Gm);
    assert!(acts.iter().any(|a| matches!(a, Action::SetReady { .. })));
    assert!(!acts.iter().any(|a| matches!(a, Action::StartGame)));

    let s = fill_lobby_ready(s, gm);
    let acts = legal_actions(&s, gm, MemberRole::Gm);
    assert!(acts.iter().any(|a| matches!(a, Action::StartGame)));
    let s = step(s, gm, MemberRole::Gm, Action::StartGame).unwrap().state;
    let acts = legal_actions(&s, gm, MemberRole::Gm);
    assert!(acts.iter().any(|a| matches!(a, Action::SpawnNpc { .. })));
}

#[test]
fn can_move_helper() {
    assert!(can_move(HexCoord::zero(), HexCoord::new(1, 0), 1));
    assert!(!can_move(HexCoord::zero(), HexCoord::new(2, 0), 1));
    assert!(!can_move(HexCoord::zero(), HexCoord::zero(), 5));
}

#[test]
fn chat_truncated() {
    let (s, gm) = setup();
    let long = "x".repeat(400);
    let out = step(s, gm, MemberRole::Player, Action::Chat { text: long }).unwrap();
    let last = out.state.history.last().unwrap();
    assert!(last.len() < 400);
}

#[test]
fn replay_determinism_same_actions() {
    let gm = UserId::new();
    let room = RoomId::new();
    let s1 = start_playing(init(room, "R1".to_string(), PlayerToken::new(gm, "GM"), 1234), gm);
    let s2 = start_playing(init(room, "R1".to_string(), PlayerToken::new(gm, "GM"), 1234), gm);
    let a1 = advance_to_d6_stage(s1, gm);
    let a2 = advance_to_d6_stage(s2, gm);
    let a1 = step(a1, gm, MemberRole::Player, Action::RollD6Move).unwrap();
    let a2 = step(a2, gm, MemberRole::Player, Action::RollD6Move).unwrap();
    assert_eq!(a1.state.tokens[0].move_points, a2.state.tokens[0].move_points);
}

#[test]
fn cannot_join_or_ready_after_start() {
    let (s, gm) = setup();
    let s = start_playing(s, gm);
    let err = try_add_player(s.clone(), PlayerToken::new(UserId::new(), "late")).unwrap_err();
    assert_eq!(err, DomainError::AlreadyPlaying);
    let back = try_add_player(s.clone(), PlayerToken::new(gm, "GM")).unwrap();
    assert_eq!(back.phase, RoomPhase::Playing);
    assert!(back.find_token(gm).is_some());
    let err = step(s.clone(), gm, MemberRole::Player, Action::SetReady { ready: false }).unwrap_err();
    assert_eq!(err, DomainError::AlreadyPlaying);
    let err = step(s, gm, MemberRole::Gm, Action::StartGame).unwrap_err();
    assert_eq!(err, DomainError::AlreadyPlaying);
}

#[test]
fn legal_playing_includes_moves() {
    let (s, gm) = setup();
    let mut s = start_playing(s, gm);
    s.tokens[0].travel_stage = TurnStage::NeedMove;
    s.tokens[0].hex = HexCoord::zero();
    s.tokens[0].target_hex = Some(HexCoord::new(1, 0));
    s.tokens[0].move_points = 2;
    let acts = legal_actions(&s, gm, MemberRole::Gm);
    assert!(acts.iter().any(|a| matches!(a, Action::MoveToken { .. })));
    assert!(!acts.iter().any(|a| matches!(a, Action::RollD20Location)));
    assert!(!acts.iter().any(|a| matches!(a, Action::StartMission { .. })));
    assert!(acts.iter().any(|a| matches!(a, Action::Chat { .. })));
}

#[test]
fn d6_four_generates_uncapped_sector_moves() {
    let (s, gm) = setup();
    let mut s = start_playing(s, gm);
    let token = s.find_token_mut(gm).unwrap();
    token.travel_stage = TurnStage::NeedMove;
    token.hex = HexCoord::new(0, -2);
    token.target_hex = Some(HexCoord::new(0, 2));
    token.move_points = 4;

    let acts = legal_actions(&s, gm, MemberRole::Player);
    let moves: Vec<HexCoord> = acts
        .iter()
        .filter_map(|a| match a {
            Action::MoveToken { to } => Some(*to),
            _ => None,
        })
        .collect();
    assert!(moves.contains(&HexCoord::new(0, 2)));
    assert!(moves.iter().all(|to| is_sector_hex(*to)));
    assert!(moves.iter().all(|to| HexCoord::new(0, -2).distance(*to) <= 4));
    assert!(!moves.contains(&HexCoord::new(3, -2)));
}

#[test]
fn legal_move_list_empty_without_target() {
    let (s, gm) = setup();
    let mut s = start_playing(s, gm);
    s.tokens[0].travel_stage = TurnStage::NeedMove;
    s.tokens[0].move_points = 4;
    s.tokens[0].target_hex = None;
    let acts = legal_actions(&s, gm, MemberRole::Player);
    assert!(!acts.iter().any(|a| matches!(a, Action::MoveToken { .. })));
}

#[test]
fn arrival_clears_target_and_advances_turn() {
    let (s, gm) = setup();
    let mut s = start_playing(s, gm);
    s.game_day = 1;
    s.game_hour = 23;
    let token = s.find_token_mut(gm).unwrap();
    token.travel_stage = TurnStage::NeedMove;
    token.hex = HexCoord::zero();
    token.target_hex = Some(HexCoord::new(1, 0));
    token.move_points = 1;
    let out = step(s, gm, MemberRole::Player, Action::MoveToken { to: HexCoord::new(1, 0) }).unwrap();
    assert_eq!(out.state.tokens[0].hex, HexCoord::new(1, 0));
    assert_eq!(out.state.tokens[0].target_hex, None);
    assert_eq!(out.state.tokens[0].travel_stage, TurnStage::NeedLocation);
    assert_eq!(out.state.game_day, 2);
    assert_eq!(out.state.game_hour, 1);
    assert_ne!(out.state.active_user_id, Some(gm));
}

#[test]
fn gm_can_spawn_npc_at_active_location_center() {
    let (s, gm) = setup();
    let mut s = start_playing(s, gm);
    s.tokens[0].location = Some(LocationId::Cordon);
    s.tokens[0].sector = Some(36);
    let out = step(
        s,
        gm,
        MemberRole::Gm,
        Action::SpawnNpc { name: "Guide".to_string(), kind: NpcKind::Stalker },
    )
    .unwrap();
    assert_eq!(out.state.npcs.len(), 1);
    assert_eq!(out.state.npcs[0].name, "Guide");
    assert_eq!(out.state.npcs[0].hex, HexCoord::zero());
    assert_eq!(out.state.npcs[0].location, Some(LocationId::Cordon));
    assert_eq!(out.state.npcs[0].sector, Some(36));
}

#[test]
fn add_player_compat_wrapper() {
    let (s, _) = setup();
    let s = add_player(s, PlayerToken::new(UserId::new(), "x"));
    assert_eq!(s.player_count(), 2);
}
