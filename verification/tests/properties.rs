use std::sync::Arc;

use nnk::actions::Action;
use nnk::app::{
    code_from_draws, generate_code, join_live, normalized_code, role_from_text, role_text, storage_error, AppError,
    AuthService, PortError, UserRecord,
};
use nnk::text::text_contains;
use nnk::auth::{
    Argon2PasswordService, AuthError, JwtTokenService, PasswordService, TokenService,
};
use nnk::ccc::CccDeck;
use nnk::client::{same_user_id, AppState, ClientSession};
use nnk::clock::GameClock;
use nnk::engine::{add_player, init, is_legal_ready, is_step_ready, legal_actions, step, try_add_player};
use nnk::error::DomainError;
use nnk::events::{all_event_card_vec, EventCard, EventDeck};
use nnk::hex::HexCoord;
use nnk::ids::{MemberRole, RoomId, UserId};
use nnk::lobby::RoomPhase;
use nnk::npc::{Npc, NpcKind};
use nnk::pilgrim::{begin_playing_round, place_event_tokens, token_on_unresolved_event};
use nnk::protocol::{ClientMsg, LobbyView, ServerMsg};
use nnk::rng::GameRng;
use nnk::room::RoomState;
use nnk::round::RoundPhase;
use nnk::sector::is_sector_hex;
use nnk::server::{
    after_action, authenticate, bad_json_reply, bearer_token, error_response, greeting,
    posted_action, relay, socket_refusal, start_gate, SocketRefusal, SocketStep,
};
use nnk::token::{PlayerToken, TurnStage};

fn room_with(n: usize, seed: u64) -> (RoomState, UserId) {
    let gm = UserId::new();
    let mut s = init(RoomId::new(), "LAWS01".to_string(), PlayerToken::new(gm, "GM"), seed);
    for i in 1..n {
        s = try_add_player(s, PlayerToken::new(UserId::new(), &format!("p{i}"))).unwrap();
    }
    (s, gm)
}

fn playing(seed: u64) -> (RoomState, UserId) {
    let (mut s, gm) = room_with(4, seed);
    for t in &mut s.tokens {
        t.ready = true;
    }
    let s = step(s, gm, MemberRole::Gm, Action::StartGame).unwrap().state;
    (s, gm)
}

#[test]
fn every_offered_action_is_accepted_through_a_turn() {
    let (mut s, gm) = playing(77);
    for _ in 0..12 {
        let offered = legal_actions(&s, gm, MemberRole::Gm);
        assert!(!offered.is_empty());
        for a in offered.iter() {
            assert!(step(s.clone(), gm, MemberRole::Gm, a.clone()).is_ok(), "{a:?} was offered");
        }
        let next = offered
            .iter()
            .find(|a| !matches!(a, Action::Chat { .. } | Action::SpawnNpc { .. }))
            .cloned();
        match next {
            Some(a) => s = step(s, gm, MemberRole::Gm, a).unwrap().state,
            None => break,
        }
        assert!(is_step_ready(&s, gm, &Action::RollD6Move));
    }
}

#[test]
fn offered_lobby_actions_are_accepted() {
    let (mut s, gm) = room_with(4, 3);
    for t in &mut s.tokens {
        t.ready = true;
    }
    let offered = legal_actions(&s, gm, MemberRole::Gm);
    assert!(offered.iter().any(|a| matches!(a, Action::StartGame)));
    for a in offered {
        assert!(step(s.clone(), gm, MemberRole::Gm, a).is_ok());
    }
}

#[test]
fn gameplay_refused_while_in_lobby() {
    let (s, gm) = room_with(5, 4);
    let actions = vec![
        Action::StartMission { mission_id: 1 },
        Action::RollD20Location,
        Action::DrawCcc,
        Action::RollD20Hex,
        Action::RollD6Move,
        Action::MoveToken { to: HexCoord::new(1, 0) },
        Action::SpawnNpc { name: "x".to_string(), kind: NpcKind::Mutant },
    ];
    for a in actions {
        assert_eq!(step(s.clone(), gm, MemberRole::Gm, a).unwrap_err(), DomainError::StillInLobby);
    }
}

#[test]
fn round_actions_are_refused() {
    let (s, gm) = playing(5);
    let err = step(s, gm, MemberRole::Gm, Action::DrawEvent).unwrap_err();
    assert_eq!(err, DomainError::Forbidden("round actions are not played by this engine"));
}

#[test]
fn start_accepted_exactly_when_lobby_can_start() {
    for n in 1..=5 {
        for ready in [false, true] {
            let (mut s, gm) = room_with(n, 8);
            for t in &mut s.tokens {
                t.ready = ready;
            }
            let can = s.can_start();
            assert_eq!(can, n >= 4 && ready);
            assert_eq!(step(s, gm, MemberRole::Gm, Action::StartGame).is_ok(), can);
        }
    }
}

#[test]
fn full_lobby_refuses_and_capacity_holds() {
    let (s, _) = room_with(5, 9);
    assert_eq!(s.tokens.len(), 5);
    let err = try_add_player(s.clone(), PlayerToken::new(UserId::new(), "sixth")).unwrap_err();
    assert_eq!(err, DomainError::LobbyFull { max: 5 });
    assert_eq!(err.message(), "lobby full (max 5 players)");
}

#[test]
fn joining_twice_is_joining_once() {
    let (s, _) = room_with(2, 10);
    let t = PlayerToken::new(UserId::new(), "twice");
    let once = try_add_player(s, t.clone()).unwrap();
    let again = try_add_player(once.clone(), t).unwrap();
    assert_eq!(once, again);
    assert_eq!(once.history.last().unwrap(), "player_joined:twice");
}

#[test]
fn moves_stay_on_the_sector() {
    let (mut s, gm) = playing(21);
    s.tokens[0].travel_stage = TurnStage::NeedMove;
    s.tokens[0].hex = HexCoord::new(0, -2);
    s.tokens[0].target_hex = Some(HexCoord::new(0, 2));
    s.tokens[0].move_points = 6;
    let offered = legal_actions(&s, gm, MemberRole::Player);
    for a in offered {
        if let Action::MoveToken { to } = a {
            assert!(is_sector_hex(to));
            let out = step(s.clone(), gm, MemberRole::Player, a).unwrap();
            assert!(is_step_ready(&out.state, gm, &Action::MoveToken { to }));
            assert_eq!(out.state.tokens[0].hex, to);
        }
    }
}

#[test]
fn event_deck_holds_each_card_by_its_copies() {
    for seed in [0u64, 1, 42, 9999] {
        let deck = EventDeck::shuffled(seed);
        let cards = all_event_card_vec();
        let total: usize = cards.iter().map(|c| c.copies_in_deck() as usize).sum();
        assert_eq!(deck.draw.len(), total);
        assert_eq!(total, 74);
        for c in cards {
            let n = deck.draw.iter().filter(|d| **d == c).count();
            assert_eq!(n, c.copies_in_deck() as usize);
        }
    }
}

#[test]
fn event_draws_lose_no_card() {
    let mut deck = EventDeck::shuffled(3);
    let total = deck.draw.len();
    for _ in 0..200 {
        let card = deck.draw_one();
        assert_eq!(deck.discard.last(), Some(&card));
        assert_eq!(deck.draw.len() + deck.discard.len(), total);
    }
    let mut empty = EventDeck::default();
    assert_eq!(empty.draw_one(), EventCard::Neutral);
}

#[test]
fn ccc_draws_keep_every_card() {
    let mut deck = CccDeck::shuffled(11);
    for _ in 0..25 {
        let d = deck.draw_ccc().unwrap();
        assert_eq!(d.tens % 10, 0);
        assert!(d.units <= 9);
        let mut tens: Vec<u8> = deck.tens.iter().chain(deck.tens_discard.iter()).cloned().collect();
        tens.sort_unstable();
        assert_eq!(tens, [0u8, 10, 20, 30, 40, 50, 60, 70, 80, 90]);
        let mut units: Vec<u8> = deck.units.iter().chain(deck.units_discard.iter()).cloned().collect();
        units.sort_unstable();
        assert_eq!(units, [0u8, 1, 2, 3, 4, 5, 6, 7, 8, 9]);
    }
}

#[test]
fn clock_advances_compose() {
    let mut a = GameClock { game_day: 4, game_hour: 20, play_started_unix: None };
    let mut b = a;
    a.advance_hours(5);
    a.advance_hours(7);
    b.advance_hours(12);
    assert_eq!(a, b);
    assert_eq!((b.game_day, b.game_hour), (5, 8));
    let start = GameClock::start();
    assert_eq!((start.game_day, start.game_hour), (1, 0));
}

#[test]
fn hex_distance_is_symmetric() {
    let pts = [HexCoord::new(0, 0), HexCoord::new(2, -1), HexCoord::new(-3, 2), HexCoord::new(1, 1)];
    for a in pts {
        for b in pts {
            assert_eq!(a.distance(b), b.distance(a));
        }
    }
    assert_eq!(HexCoord::new(-3, 2).distance(HexCoord::new(2, -1)), 5);
}

#[test]
fn dice_replay_from_the_same_seed() {
    let mut a = GameRng::from_seed(7);
    let mut b = GameRng::from_seed(7);
    for _ in 0..50 {
        assert_eq!(a.d6(), b.d6());
        assert_eq!(a.ccc_parts(), b.ccc_parts());
    }
    assert_eq!(a.seed(), 7);
}

#[test]
fn domain_messages() {
    assert_eq!(
        DomainError::IllegalMove { distance: 3, points: 2 }.message(),
        "illegal move: distance 3 exceeds move points 2"
    );
    assert_eq!(
        DomainError::LobbySize { min: 4, max: 5, have: 1 }.message(),
        "need 4..=5 players to start, have 1"
    );
    assert_eq!(
        DomainError::IllegalStage { expected: "draw_ccc", got: "roll_d20_hex" }.message(),
        "illegal stage action: expected draw_ccc, got roll_d20_hex"
    );
    assert_eq!(DomainError::Forbidden("x").message(), "forbidden: x");
    assert_eq!(DomainError::InvalidDice(21).message(), "invalid dice value: 21");
    assert_eq!(DomainError::NoEventTokens.message(), "no unresolved event tokens");
    assert_eq!(AppError::Auth(AuthError::UsernameTaken).message(), "username taken");
    assert_eq!(AppError::Port(PortError::Conflict("users")).message(), "conflict: users");
    assert_eq!(AppError::Message("room not found").message(), "room not found");
}

#[test]
fn http_error_answers() {
    let r = error_response(&AppError::Domain(DomainError::LobbySize { min: 4, max: 5, have: 1 }));
    assert_eq!((r.status, r.message.as_str()), (409, "need 4..=5 players, have 1"));
    let r = error_response(&AppError::Domain(DomainError::LobbyFull { max: 5 }));
    assert_eq!((r.status, r.message.as_str()), (409, "lobby full (max 5 players)"));
    let r = error_response(&AppError::Message("room not found"));
    assert_eq!((r.status, r.message.as_str()), (404, "not found"));
    let r = error_response(&AppError::Message("not a room member"));
    assert_eq!((r.status, r.message.as_str()), (400, "not a room member"));
    let r = error_response(&AppError::Port(PortError::Storage("disk".to_string())));
    assert_eq!((r.status, r.message.as_str()), (500, "internal error"));
    let r = error_response(&AppError::Port(PortError::NotFound));
    assert_eq!(r.status, 404);
    let r = error_response(&AppError::Auth(AuthError::InvalidCredentials));
    assert_eq!((r.status, r.message.as_str()), (401, "неверный логин или пароль"));
    let r = error_response(&AppError::Domain(DomainError::InvalidCcc));
    assert_eq!((r.status, r.message.as_str()), (400, "invalid CCC combination"));
    let r = error_response(&AppError::Domain(DomainError::StillInLobby));
    assert_eq!((r.status, r.message.as_str()), (409, "still in lobby"));
}

#[test]
fn bearer_header_parsing() {
    let e = bearer_token(None).unwrap_err();
    assert_eq!((e.status, e.message.as_str()), (401, "missing Authorization"));
    let e = bearer_token(Some("Basic abc")).unwrap_err();
    assert_eq!((e.status, e.message.as_str()), (401, "expected Bearer token"));
    let e = bearer_token(Some("Bear")).unwrap_err();
    assert_eq!(e.status, 401);
    assert_eq!(bearer_token(Some("Bearer abc.def")).unwrap(), "abc.def");
    assert_eq!(bearer_token(Some("Bearer ")).unwrap(), "");
}

#[test]
fn authenticate_with_issued_token() {
    let tokens = JwtTokenService::new("s3cret", 1);
    let uid = UserId::new();
    let token = tokens.issue(uid, "stalker").unwrap();
    let auth = AuthService::new(Arc::new(()), Arc::new(Argon2PasswordService), Arc::new(tokens));
    let header = format!("Bearer {token}");
    let user = authenticate(Some(&header), &auth).unwrap();
    assert_eq!(user.user_id, uid);
    assert_eq!(user.username, "stalker");
    let e = authenticate(Some("Bearer nope"), &auth).unwrap_err();
    assert_eq!((e.status, e.message.as_str()), (401, "invalid token"));
}

#[test]
fn gm_gate_and_posted_actions() {
    let e = start_gate(&Action::StartGame, MemberRole::Player).unwrap();
    assert_eq!((e.status, e.message.as_str()), (403, "only GM can start the game"));
    assert!(start_gate(&Action::StartGame, MemberRole::Gm).is_none());
    assert!(start_gate(&Action::SetReady { ready: true }, MemberRole::Player).is_none());
    let e = posted_action(ClientMsg::JoinRoom { code: "ABC".to_string() }).unwrap_err();
    assert_eq!((e.status, e.message.as_str()), (400, "join is not an action"));
    assert_eq!(posted_action(ClientMsg::DrawCcc).unwrap(), Action::DrawCcc);
}

#[test]
fn socket_messages() {
    let (s, gm) = room_with(2, 12);
    let hello = greeting(s.clone(), gm, MemberRole::Gm);
    assert_eq!(hello.len(), 3);
    assert_eq!(hello[0], ServerMsg::Welcome { user_id: gm, role: MemberRole::Gm });
    match &hello[1] {
        ServerMsg::Lobby(l) => assert!(l.legal_actions.iter().any(|a| a.starts_with("set_ready"))),
        other => panic!("expected a lobby, got {other:?}"),
    }
    assert_eq!(hello[2], ServerMsg::RoomState(s.clone()));

    assert!(relay(ServerMsg::Lobby(LobbyView::from_state(&s)), gm, MemberRole::Gm).is_empty());
    let forwarded = relay(ServerMsg::RoomState(s.clone()), gm, MemberRole::Gm);
    assert_eq!(forwarded.len(), 2);
    assert!(matches!(forwarded[0], ServerMsg::Lobby(_)));
    let err = bad_json_reply();
    assert_eq!(relay(err.clone(), gm, MemberRole::Gm), vec![err.clone()]);
    assert_eq!(
        err,
        ServerMsg::Error { code: "bad_json".to_string(), message: "cannot parse ClientMsg".to_string() }
    );

    match after_action(Err(AppError::Domain(DomainError::StillInLobby))) {
        SocketStep::Reply(m) => assert_eq!(
            m,
            ServerMsg::Error { code: "reject".to_string(), message: "still in lobby".to_string() }
        ),
        SocketStep::Broadcast(_) => panic!("a refusal is not broadcast"),
    }
    let out = step(s, gm, MemberRole::Gm, Action::Chat { text: "hi".to_string() }).unwrap();
    let expected = out.state.clone();
    match after_action(Ok(out)) {
        SocketStep::Broadcast(room) => assert_eq!(room, expected),
        SocketStep::Reply(_) => panic!("an accepted action is broadcast"),
    }
}

#[test]
fn live_join_rules() {
    let (s, gm) = room_with(1, 13);
    let err = join_live(None, gm, "GM").unwrap_err();
    assert!(matches!(err, AppError::Message(_)));
    let (back, role) = join_live(Some(s.clone()), gm, "GM").unwrap();
    assert_eq!(back, s);
    assert_eq!(role, MemberRole::Gm);
    let (joined, role) = join_live(Some(s), UserId::new(), "newbie").unwrap();
    assert_eq!(joined.tokens.len(), 2);
    assert_eq!(role, MemberRole::Player);
}

#[test]
fn wrappers_compute() {
    assert_eq!(UserId(0x67e5_5044_10b1_426f_9247_bb68_0e5f_e0c8).text(), "67e55044-10b1-426f-9247-bb680e5fe0c8");
    assert_eq!(normalized_code("abc-12x"), "ABC-12X");
    let code = generate_code();
    assert_eq!(code.chars().count(), 6);
    assert!(code.chars().all(|c| "ABCDEFGHJKLMNPQRSTUVWXYZ23456789".contains(c)));
    let npc = Npc::new("  ", NpcKind::Mutant, UserId::new(), HexCoord::zero());
    assert_eq!(npc.id_text().len(), 36);
}

#[test]
fn client_session_flow() {
    let mut c = ClientSession::new(Some("tok".to_string()));
    assert_eq!(c.app_state, AppState::Auth);
    assert!(!c.is_busy());
    c.begin_request("входим...");
    assert!(c.is_busy());
    assert_eq!(c.status, "входим...");
    c.set_error("нет связи");
    assert!(!c.is_busy());
    assert_eq!(c.error.as_deref(), Some("нет связи"));

    let (s, gm) = room_with(1, 14);
    c.user_id = Some(gm.text().to_uppercase());
    c.set_lobby(LobbyView::from_state(&s));
    assert_eq!(c.app_state, AppState::Lobby);
    assert_eq!(c.room_code_input, "LAWS01");
    assert!(c.me_is_gm());
    assert!(!c.me_ready());
    assert!(same_user_id("AbC", "aBc"));
    assert!(!same_user_id("abc", "abd"));
    c.logout();
    assert_eq!(c.app_state, AppState::Auth);
    assert!(c.token.is_none());
    assert!(c.lobby.is_none());
}

#[test]
fn pilgrim_round_setup() {
    let (mut s, gm) = playing(30);
    begin_playing_round(&mut s);
    assert_eq!(s.round_phase, RoundPhase::ExitZone);
    assert_eq!(s.round_number, 1);
    assert_eq!(s.event_deck.draw.len(), 74);
    assert!(s.tokens.iter().all(|t| t.hex == HexCoord::zero() && t.travel_stage == TurnStage::Idle));
    let mut rng = GameRng::from_seed(s.rng_seed);
    let placed = place_event_tokens(&mut s, &mut rng, 4).unwrap();
    assert_eq!(placed.len(), 4);
    assert_eq!(s.event_tokens.len(), 4);
    assert_eq!(s.round_phase, RoundPhase::Explore);
    assert!(placed.iter().all(|h| is_sector_hex(*h) && *h != HexCoord::zero()));
    assert_eq!(token_on_unresolved_event(&s, gm), None);
    s.tokens[0].hex = placed[0];
    assert_eq!(token_on_unresolved_event(&s, gm), Some(s.event_tokens[0].id));
    assert_eq!(s.phase, RoomPhase::Playing);
}

#[test]
fn storage_encodings() {
    assert_eq!(
        storage_error(Some("UNIQUE constraint failed: users.username"), "x".to_string()),
        PortError::Conflict("unique constraint")
    );
    assert_eq!(storage_error(Some("disk I/O error"), "io".to_string()), PortError::Storage("io".to_string()));
    assert_eq!(storage_error(None, "pool".to_string()), PortError::Storage("pool".to_string()));
    assert_eq!(role_text(MemberRole::Gm), "gm");
    assert_eq!(role_from_text(role_text(MemberRole::Player)), MemberRole::Player);
    assert_eq!(role_from_text("gm"), MemberRole::Gm);
    assert!(text_contains("abcabd", "abd"));
    assert!(!text_contains("ab", "abc"));
    assert!(text_contains("x", ""));
}

#[test]
fn fresh_ids_are_version_four() {
    let mask: u128 = 0xF000_C000_0000_0000_0000;
    let v4: u128 = 0x4000_8000_0000_0000_0000;
    for _ in 0..20 {
        assert_eq!(UserId::new().0 & mask, v4);
        assert_eq!(RoomId::new().0 & mask, v4);
        assert_eq!(Npc::new("n", NpcKind::Stalker, UserId::new(), HexCoord::zero()).id & mask, v4);
    }
}

#[test]
fn trait_services_behave_as_their_methods() {
    let tokens = JwtTokenService::new("k", 1);
    let uid = UserId::new();
    let t = TokenService::issue(&tokens, uid, "name").unwrap();
    assert_eq!(TokenService::verify(&tokens, &t).unwrap(), (uid, "name".to_string()));
    assert_eq!(TokenService::verify(&tokens, "x.y.z").unwrap_err(), AuthError::InvalidToken);
    let p = Argon2PasswordService;
    let h = PasswordService::hash(&p, "longenough").unwrap();
    assert!(PasswordService::verify(&p, "longenough", &h).is_ok());
    assert_eq!(PasswordService::verify(&p, "other-pass", &h).unwrap_err(), AuthError::InvalidCredentials);
    assert_eq!(PasswordService::verify(&p, "longenough", "not a phc").unwrap_err(), AuthError::Internal);
}

#[test]
fn only_distances_that_overflow_block_a_step() {
    let (mut s, gm) = playing(5);
    s.active_user_id = Some(gm);
    s.tokens[0].travel_stage = TurnStage::NeedD6;
    s.tokens[0].target_hex = Some(HexCoord::new(0, 2));
    s.tokens[0].hex = HexCoord::new(i32::MAX, i32::MIN);
    assert!(!is_step_ready(&s, gm, &Action::RollD6Move));
    assert!(is_step_ready(&s, gm, &Action::Chat { text: "hi".to_string() }));
    assert!(is_step_ready(&s, gm, &Action::SetReady { ready: true }));
    assert!(is_step_ready(&s, gm, &Action::SpawnNpc { name: "n".to_string(), kind: NpcKind::Stalker }));
    assert!(is_legal_ready(&s, gm));
    s.tokens[0].travel_stage = TurnStage::NeedMove;
    s.tokens[0].move_points = 3;
    assert!(!is_legal_ready(&s, gm));
    assert!(!is_step_ready(&s, gm, &Action::MoveToken { to: HexCoord::new(0, 1) }));
    let other = s.tokens[1].user_id;
    assert!(is_legal_ready(&s, other));
}

#[test]
fn a_seat_far_beyond_the_sector_still_rolls() {
    let (mut s, gm) = playing(9);
    s.active_user_id = Some(gm);
    s.tokens[0].travel_stage = TurnStage::NeedD6;
    s.tokens[0].target_hex = Some(HexCoord::new(0, 2));
    s.tokens[0].hex = HexCoord::new(1 << 28, 0);
    assert!(is_step_ready(&s, gm, &Action::RollD6Move));
    let out = step(s, gm, MemberRole::Gm, Action::RollD6Move).unwrap();
    assert_eq!(out.state.tokens[0].move_points, 0);
    assert_eq!(out.state.tokens[0].travel_stage, TurnStage::NeedD6);
}

#[test]
fn spawned_npc_ids_come_from_the_room_seed() {
    let (s, gm) = playing(12);
    let spawn = || Action::SpawnNpc { name: "Сидорович".to_string(), kind: NpcKind::Stalker };
    let a = step(s.clone(), gm, MemberRole::Gm, spawn()).unwrap();
    let b = step(s.clone(), gm, MemberRole::Gm, spawn()).unwrap();
    assert_eq!(a.state.npcs[0].id, b.state.npcs[0].id);
    assert_eq!(a.state.npcs[0].id & 0xF000_C000_0000_0000_0000u128, 0x4000_8000_0000_0000_0000u128);
    let c = step(a.state.clone(), gm, MemberRole::Gm, spawn()).unwrap();
    assert_ne!(c.state.npcs[0].id, c.state.npcs[1].id);
}

#[test]
fn the_clock_limit_binds_only_travel_actions() {
    let (mut s, gm) = playing(6);
    s.game_day = u32::MAX;
    s.game_hour = 23;
    assert!(!is_step_ready(&s, gm, &Action::RollD6Move));
    assert!(!is_step_ready(&s, gm, &Action::MoveToken { to: HexCoord::new(0, 0) }));
    assert!(is_step_ready(&s, gm, &Action::Chat { text: "hi".to_string() }));
    assert!(is_step_ready(&s, gm, &Action::RollD20Location));
}

#[test]
fn add_player_gives_what_try_add_player_accepts() {
    let (s, _) = room_with(2, 8);
    let t = PlayerToken::new(UserId::new(), "joiner");
    let tried = try_add_player(s.clone(), t.clone()).unwrap();
    let added = add_player(s, t);
    assert_eq!(tried, added);
    assert_eq!(added.player_count(), 3);
}

#[test]
fn the_route_refuses_tokens_it_cannot_read() {
    let auth = AuthService::new(Arc::new(()), Arc::new(Argon2PasswordService), Arc::new(JwtTokenService::new("ours", 1)));
    let foreign = JwtTokenService::new("theirs", 1).issue(UserId::new(), "intruder").unwrap();
    let e = authenticate(Some(&format!("Bearer {foreign}")), &auth).unwrap_err();
    assert_eq!((e.status, e.message.as_str()), (401, "invalid token"));
    let e = authenticate(None, &auth).unwrap_err();
    assert_eq!((e.status, e.message.as_str()), (401, "missing Authorization"));
    let e = authenticate(Some(&format!("Basic {foreign}")), &auth).unwrap_err();
    assert_eq!((e.status, e.message.as_str()), (401, "expected Bearer token"));
    assert_eq!(
        auth.verify_token(&foreign).unwrap_err(),
        AppError::Auth(AuthError::InvalidToken)
    );
}

#[test]
fn an_expiry_beyond_the_clock_is_an_internal_error() {
    let svc = JwtTokenService::new("s", i64::MAX);
    assert_eq!(svc.issue_token(UserId::new(), "late").unwrap_err(), AuthError::Internal);
}

#[test]
fn the_movement_die_shows_one_to_six() {
    for seed in 0u64..40 {
        let (mut s, gm) = playing(seed);
        s.active_user_id = Some(gm);
        s.tokens[0].travel_stage = TurnStage::NeedD6;
        s.tokens[0].hex = HexCoord::new(0, -2);
        s.tokens[0].target_hex = Some(HexCoord::new(0, 2));
        let out = step(s, gm, MemberRole::Gm, Action::RollD6Move).unwrap();
        let t = &out.state.tokens[0];
        assert!((1..=6).contains(&t.move_points), "rolled {}", t.move_points);
        assert_eq!(t.travel_stage, TurnStage::NeedMove);
    }
}

#[test]
fn login_after_lookup() {
    let auth = AuthService::new(Arc::new(()), Arc::new(Argon2PasswordService), Arc::new(JwtTokenService::new("k", 1)));
    assert_eq!(
        auth.login_found("zonezone1", None).unwrap_err(),
        AppError::Auth(AuthError::InvalidCredentials)
    );
    let id = UserId::new();
    let hash = Argon2PasswordService.hash("zonezone1").unwrap();
    let user = UserRecord { id, username: "stalker1".to_string(), password_hash: hash };
    assert_eq!(
        auth.login_found("wrongpass", Some(user.clone())).unwrap_err(),
        AppError::Auth(AuthError::InvalidCredentials)
    );
    let resp = auth.login_found("zonezone1", Some(user)).unwrap();
    assert_eq!(resp.user_id, id.0);
    assert_eq!(resp.username, "stalker1");
    assert_eq!(resp.token_type, "Bearer");
    assert_eq!(auth.verify_token(&resp.access_token).unwrap(), (id, "stalker1".to_string()));
}

#[test]
fn codes_spell_their_draws() {
    assert_eq!(code_from_draws(&vec![0, 1, 2, 29, 30, 31]), "ABC789");
    assert_eq!(code_from_draws(&vec![8, 8, 8, 8, 8, 8]), "JJJJJJ");
    let code = generate_code();
    assert_eq!(code.chars().count(), 6);
}

#[test]
fn tokens_issued_at_a_given_time() {
    let svc = JwtTokenService::new("k", 2);
    let uid = UserId::new();
    let t = svc.issue_token_at(uid, "at", 1_000).unwrap();
    assert_eq!(t, svc.issue_token_at(uid, "at", 1_000).unwrap());
    assert_ne!(t, svc.issue_token_at(uid, "at", 1_001).unwrap());
    assert_eq!(
        JwtTokenService::new("k", 1).issue_token_at(uid, "at", i64::MAX).unwrap_err(),
        AuthError::Internal
    );
    assert!(JwtTokenService::new("k", 1 << 40).issue_token(uid, "long").is_ok());
}

#[test]
fn socket_refusals() {
    let e = socket_refusal(SocketRefusal::BadToken);
    assert_eq!((e.status, e.message.as_str()), (401, "invalid token"));
    let e = socket_refusal(SocketRefusal::NotMember);
    assert_eq!((e.status, e.message.as_str()), (401, "not a room member — join via REST first"));
    let e = socket_refusal(SocketRefusal::NotLive);
    assert_eq!((e.status, e.message.as_str()), (400, "room not in memory"));
}

#[test]
fn hashing_succeeds_and_verifies() {
    let svc = Argon2PasswordService;
    let h = svc.hash_password("Сталкер-пароль").unwrap();
    assert!(svc.verify_password("Сталкер-пароль", &h).is_ok());
}
