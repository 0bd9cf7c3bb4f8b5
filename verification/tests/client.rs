use nnk::client::{AppState, ClientSession, FocusField, HealthState};
use nnk::client_flow::{AuthMode, NetEvent, NetRequest, UiAction};
use nnk::client_text::{
    active_name, ccc_label, compact, coord_label, extract_error, field_values, format_history,
    health_label,
    lobby_buttons, lobby_mission, lobby_report, lobby_summary, me_player, mission_title, nonempty,
    nonempty_lobby, notice, phase_label, replace_text, roster_line, seat_line, socket_report,
    socket_url, stage_label, turn_status,
};
use nnk::engine::init;
use nnk::hex::HexCoord;
use nnk::ids::{RoomId, UserId};
use nnk::protocol::{ClientMsg, LobbyView, ServerMsg};
use nnk::token::PlayerToken;

fn lobby_for(gm: UserId) -> LobbyView {
    let s = init(RoomId::new(), "ZXCV12".to_string(), PlayerToken::new(gm, "Гена"), 5);
    LobbyView::from_state(&s)
}

#[test]
fn sign_in_checks_lengths_then_requests() {
    let mut c = ClientSession::new(None);
    c.username_input = "  ab ".to_string();
    c.password_input = "12345678".to_string();
    assert!(c.start_auth(AuthMode::Login).is_none());
    assert_eq!(c.error.as_deref(), Some("логин от 3 символов, пароль от 8"));
    c.username_input = " stalker ".to_string();
    match c.press(UiAction::Register) {
        Some(NetRequest::Auth { mode, username, password }) => {
            assert_eq!(mode, AuthMode::Register);
            assert_eq!(username, "stalker");
            assert_eq!(password, "12345678");
        }
        _ => panic!("expected an auth request"),
    }
    assert_eq!(c.status, "регистрация...");
    assert_eq!(c.inflight, 1);
    assert!(c.start_auth(AuthMode::Login).is_none());
    assert_eq!(c.inflight, 1);
}

#[test]
fn room_requests_need_token_and_room() {
    let mut c = ClientSession::new(None);
    assert!(c.start_refresh().is_none());
    assert_eq!(c.error.as_deref(), Some("сначала войдите"));
    c.token = Some("tok".to_string());
    assert!(c.start_ready(true).is_none());
    assert_eq!(c.error.as_deref(), Some("нет активной комнаты"));
    c.room_code_input = " abcd ".to_string();
    match c.start_ready(false) {
        Some(NetRequest::Ready { code, ready, token }) => {
            assert_eq!(code, "ABCD");
            assert!(!ready);
            assert_eq!(token, "tok");
        }
        _ => panic!("expected a ready request"),
    }
    assert_eq!(c.status, "снятие готовности...");
}

#[test]
fn join_needs_a_four_character_code() {
    let mut c = ClientSession::new(Some("tok".to_string()));
    c.room_code_input = "ab".to_string();
    assert!(c.start_join().is_none());
    assert_eq!(c.error.as_deref(), Some("введите код комнаты"));
    c.room_code_input = "abcd12".to_string();
    match c.press_enter() {
        Some(_) => panic!("Enter signs in on the sign-in screen"),
        None => {}
    }
    c.app_state = AppState::Lobby;
    match c.press_enter() {
        Some(NetRequest::JoinRoom { code, token }) => {
            assert_eq!(code, "ABCD12");
            assert_eq!(token, "tok");
        }
        _ => panic!("expected a join request"),
    }
}

#[test]
fn only_the_gm_starts_a_ready_lobby() {
    let gm = UserId::new();
    let mut c = ClientSession::new(Some("tok".to_string()));
    c.user_id = Some(gm.text());
    c.set_lobby(lobby_for(UserId::new()));
    assert!(c.start_game().is_none());
    assert_eq!(c.error.as_deref(), Some("стартовать может только ГМ"));
    c.set_lobby(lobby_for(gm));
    assert!(c.start_game().is_none());
    assert_eq!(c.error.as_deref(), Some("нужно 4+ готовых игрока"));
    let mut l = lobby_for(gm);
    l.can_start = true;
    c.set_lobby(l);
    match c.press(UiAction::Start) {
        Some(NetRequest::Start { code, token }) => {
            assert_eq!(code, "ZXCV12");
            assert_eq!(token, "tok");
        }
        _ => panic!("expected a start request"),
    }
}

#[test]
fn play_buttons_send_actions() {
    let gm = UserId::new();
    let mut c = ClientSession::new(Some("tok".to_string()));
    c.set_lobby(lobby_for(gm));
    match c.press(UiAction::MoveToken { q: 1, r: -1 }) {
        Some(NetRequest::Action { code, token, msg }) => {
            assert_eq!(code, "ZXCV12");
            assert_eq!(token, "tok");
            assert_eq!(msg, ClientMsg::MoveToken { to: HexCoord::new(1, -1) });
        }
        _ => panic!("expected an action"),
    }
    assert_eq!(c.status, "ход токена...");
    let mut c = ClientSession::new(Some("tok".to_string()));
    match c.press(UiAction::CreateRoom) {
        Some(NetRequest::CreateRoom { token }) => assert_eq!(token, "tok"),
        _ => panic!("expected a create request"),
    }
    c.press(UiAction::Focus(FocusField::RoomCode));
    assert_eq!(c.focused, FocusField::RoomCode);
    c.press(UiAction::Logout);
    assert!(c.token.is_none());
}

#[test]
fn typing_fills_the_focused_field() {
    let mut c = ClientSession::new(None);
    for ch in "ab\u{7}c".chars() {
        c.type_char(ch);
    }
    assert_eq!(c.username_input, "abc");
    c.erase_char();
    assert_eq!(c.username_input, "ab");
    c.focused = FocusField::RoomCode;
    for ch in "a1-b2c3d4".chars() {
        c.type_char(ch);
    }
    assert_eq!(c.room_code_input, "A1B2C3");
    c.focused = FocusField::Password;
    for _ in 0..200 {
        c.type_char('x');
    }
    assert_eq!(c.password_input.len(), 128);
    let mut empty = ClientSession::new(None);
    empty.erase_char();
    assert_eq!(empty.username_input, "");
}

#[test]
fn network_reports_update_the_session() {
    let gm = UserId::new();
    let mut c = ClientSession::new(None);
    c.begin_request("вход...");
    let r = c.apply_net_event(NetEvent::Authenticated {
        token: "tok".to_string(),
        user_id: gm.text(),
        username: "Гена".to_string(),
    });
    assert!(r.is_none());
    assert_eq!(c.app_state, AppState::Lobby);
    assert_eq!(c.inflight, 0);
    assert_eq!(c.status, "авторизация ок");
    match c.apply_net_event(NetEvent::Lobby { lobby: lobby_for(gm), connect_ws: true }) {
        Some(NetRequest::OpenSocket { code, token, generation }) => {
            assert_eq!(code, "ZXCV12");
            assert_eq!(token, "tok");
            assert_eq!(generation, 1);
        }
        _ => panic!("expected a socket"),
    }
    assert_eq!(c.status, "лобби обновлено");
    assert_eq!(c.room_code_input, "ZXCV12");
    c.apply_net_event(NetEvent::WsStatus { generation: 0, message: "old".to_string() });
    assert_eq!(c.status, "лобби обновлено");
    c.apply_net_event(NetEvent::WsError { generation: 1, message: "boom".to_string() });
    assert_eq!(c.error.as_deref(), Some("boom"));
    c.apply_net_event(NetEvent::Health { state: HealthState::Online, message: "ok".to_string() });
    assert_eq!(c.health, HealthState::Online);
    c.apply_net_event(NetEvent::Error { message: "bad".to_string() });
    assert_eq!(c.error.as_deref(), Some("bad"));
    assert!(matches!(c.start_health_check(), NetRequest::Health));
    assert_eq!(c.health, HealthState::Checking);
}

#[test]
fn labels() {
    assert_eq!(nonempty("  "), "-");
    assert_eq!(nonempty("x"), "x");
    assert_eq!(nonempty_lobby(""), "уточняется");
    assert_eq!(phase_label("playing"), "игра");
    assert_eq!(phase_label("lobby"), "лобби");
    assert_eq!(stage_label("need_d6"), "нужен D6");
    assert_eq!(stage_label("idle"), "idle");
    assert_eq!(compact("abcdef", 3), "abc...");
    assert_eq!(compact("abc", 3), "abc");
    assert_eq!(coord_label(&HexCoord::new(-2, 1)), "(-2, 1)");
    let gm = UserId::new();
    let mut l = lobby_for(gm);
    assert_eq!(mission_title(&l), format!("Миссия 1 · {}", l.mission_title));
    l.mission_title = " ".to_string();
    assert_eq!(mission_title(&l), "Миссия 1");
    assert_eq!(active_name(&l), "Гена");
    l.active_display_name = None;
    assert_eq!(active_name(&l), "Гена");
    l.active_user_id = None;
    assert_eq!(active_name(&l), "-");
    assert_eq!(ccc_label(None), "-");
    let mut p = l.players[0].clone();
    assert_eq!(ccc_label(Some(&p)), "-");
    p.ccc_tens = Some(30);
    p.sector = Some(36);
    assert_eq!(ccc_label(Some(&p)), "30 / - -> 36");
    let mut c = ClientSession::new(None);
    assert!(me_player(&c, &l).is_none());
    c.user_id = Some(gm.text().to_uppercase());
    assert_eq!(me_player(&c, &l).unwrap().display_name, "Гена");
}

#[test]
fn history_lines() {
    assert_eq!(format_history("room_created"), "Комната создана");
    assert_eq!(format_history("player_joined:Вася"), "Игрок вошел: Вася");
    assert_eq!(format_history("game_started:4"), "Игра началась");
    assert_eq!(format_history("ready:abc:true"), "готовность: abc:да");
    assert_eq!(format_history("ready:abc:false"), "готовность: abc:нет");
    assert_eq!(replace_text("aaaa", "aa", "b"), "bb");
    assert_eq!(replace_text("xyz", "q", "r"), "xyz");
}

#[test]
fn urls_errors_and_frames() {
    assert_eq!(socket_url("https:", "zone.example", " ab12 ", "t"), "wss://zone.example/ws/rooms/AB12?token=t");
    assert_eq!(socket_url("http:", "localhost:8080", "ab12", "t"), "ws://localhost:8080/ws/rooms/AB12?token=t");
    assert_eq!(extract_error(409, "{\"error\":\"lobby full\"}"), "lobby full");
    assert_eq!(extract_error(500, ""), "HTTP 500");
    assert_eq!(extract_error(502, "bad gateway"), "HTTP 502: bad gateway");
    let gm = UserId::new();
    match socket_report(Ok(ServerMsg::Lobby(lobby_for(gm))), 3) {
        Some(NetEvent::Lobby { connect_ws, .. }) => assert!(!connect_ws),
        _ => panic!("expected a lobby"),
    }
    match socket_report(Ok(ServerMsg::Error { code: "reject".to_string(), message: "no".to_string() }), 3) {
        Some(NetEvent::WsError { generation, message }) => {
            assert_eq!(generation, 3);
            assert_eq!(message, "no");
        }
        _ => panic!("expected an error"),
    }
    match socket_report(Err("eof".to_string()), 4) {
        Some(NetEvent::WsError { generation, message }) => {
            assert_eq!(generation, 4);
            assert_eq!(message, "WS JSON: eof");
        }
        _ => panic!("expected an error"),
    }
    assert!(socket_report(Ok(ServerMsg::Welcome { user_id: gm, role: nnk::ids::MemberRole::Gm }), 1).is_none());
    assert!(matches!(lobby_report(Err("x".to_string()), true), NetEvent::Error { .. }));
}

#[test]
fn lobby_buttons_follow_the_session() {
    let gm = UserId::new();
    let mut c = ClientSession::new(Some("tok".to_string()));
    c.user_id = Some(gm.text());
    let b = lobby_buttons(&c);
    assert!(b.create && b.join);
    assert!(!b.ready && !b.unready && !b.start);
    let mut l = lobby_for(gm);
    c.set_lobby(l.clone());
    let b = lobby_buttons(&c);
    assert!(b.ready && !b.unready && !b.start);
    l.players[0].ready = true;
    l.can_start = true;
    c.set_lobby(l);
    let b = lobby_buttons(&c);
    assert!(!b.ready && b.unready && b.start);
    c.inflight = 1;
    let b = lobby_buttons(&c);
    assert!(!b.create && !b.join && !b.ready && !b.unready && !b.start);
}

#[test]
fn panel_notice_prefers_the_error() {
    let mut c = ClientSession::new(None);
    c.status = "готово".to_string();
    assert_eq!(notice(&c), ("готово".to_string(), false));
    c.error = Some("сбой".to_string());
    assert_eq!(notice(&c), ("сбой".to_string(), true));
}

#[test]
fn tablet_lines() {
    let gm = UserId::new();
    let mut l = lobby_for(gm);
    l.game_day = 3;
    l.game_hour = 7;
    l.active_user_id = Some(gm.0);
    assert_eq!(turn_status(&l), "Ходит: Гена · День 3, 07:00 · игроков 1/5");
    l.game_hour = 14;
    assert_eq!(turn_status(&l), "Ходит: Гена · День 3, 14:00 · игроков 1/5");
    let mut p = l.players[0].clone();
    p.location = Some("Кордон".to_string());
    p.sector = Some(36);
    p.hex = HexCoord::new(1, -2);
    p.target_hex = Some(HexCoord::new(0, 2));
    p.move_points = 4;
    assert_eq!(
        roster_line(&l, &p),
        "Гена [ГМ] · ходит · Кордон · сектор 36 · гекс (1, -2) · цель (0, 2) · ОД 4"
    );
    l.active_user_id = None;
    let q = l.players[0].clone();
    assert_eq!(roster_line(&l, &q), "Гена [ГМ] · ждет · - · сектор - · гекс (0, 0) · цель - · ОД 0");
    let fields = field_values(Some(&p), &l);
    assert_eq!(fields[0], "Гена");
    assert_eq!(fields[1], "Кордон");
    assert_eq!(fields[2], "36");
    assert_eq!(fields[4], "(1, -2)");
    assert_eq!(fields[5], "(0, 2)");
    assert_eq!(fields[6], "4");
    assert_eq!(fields.len(), 10);
    let empty = field_values(None, &l);
    assert!(empty[..8].iter().all(|v| v == "-"));
}

#[test]
fn lobby_room_lines() {
    let gm = UserId::new();
    let mut l = lobby_for(gm);
    assert_eq!(lobby_summary(&l), "Фаза: лобби · игроков 1/5 · минимум 4 · can_start: нет");
    l.mission_title = String::new();
    assert_eq!(lobby_mission(&l), format!("Миссия {}: без названия", l.mission_id));
    l.mission_title = "Тайник".to_string();
    assert_eq!(lobby_mission(&l), format!("Миссия {}: Тайник", l.mission_id));
    let (name, state) = seat_line(&l.players[0]);
    assert_eq!((name.as_str(), state), ("Гена · ГМ", "ждем"));
}

#[test]
fn health_labels() {
    assert_eq!(health_label(HealthState::Checking), "Сервер: проверка...");
    assert_eq!(health_label(HealthState::Online), "Сервер: онлайн");
    assert_eq!(health_label(HealthState::Offline), "Сервер: недоступен");
}
